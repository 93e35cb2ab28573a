use samson::digits::decimal_text;
use samson::reply::{
    close_session_reply, create_session_reply, receive_message_reply, send_message_reply,
};
use samson::{Operation, OperationError, SamError, SamRequest, SamResponse};

fn pair(name: &str, text: &str) -> (String, String) {
    (name.to_string(), text.to_string())
}

fn answer(success: bool, message: Option<&str>, error: Option<&str>) -> SamResponse {
    SamResponse { success, message: message.map(str::to_string), error: error.map(str::to_string) }
}

fn failure(operation: Operation, text: &str) -> SamError<u8> {
    SamError::Operation(OperationError { operation, text: text.to_string() })
}

#[test]
fn decimal_text_of_small_and_large_numbers() {
    assert_eq!(decimal_text(0), "0");
    assert_eq!(decimal_text(7), "7");
    assert_eq!(decimal_text(9), "9");
    assert_eq!(decimal_text(10), "10");
    assert_eq!(decimal_text(99), "99");
    assert_eq!(decimal_text(100), "100");
    assert_eq!(decimal_text(1234), "1234");
    assert_eq!(decimal_text(7656), "7656");
    assert_eq!(decimal_text(10000), "10000");
    assert_eq!(decimal_text(40302), "40302");
    assert_eq!(decimal_text(65535), "65535");
}

#[test]
fn decimal_text_agrees_with_the_standard_notation() {
    let mut n: u16 = 0;
    loop {
        assert_eq!(decimal_text(n), n.to_string());
        if n == u16::MAX {
            break;
        }
        n += 1;
    }
}

#[test]
fn request_kinds() {
    assert_eq!(Operation::CreateSession.request_kind(), "session");
    assert_eq!(Operation::CloseSession.request_kind(), "close");
    assert_eq!(Operation::SendMessage.request_kind(), "sendmsg");
    assert_eq!(Operation::ReceiveMessage.request_kind(), "recvmsg");
}

#[test]
fn failure_wordings() {
    assert_eq!(Operation::CreateSession.wording(), "Error creating session");
    assert_eq!(Operation::CloseSession.wording(), "Error closing session");
    assert_eq!(Operation::SendMessage.wording(), "Error sending message");
    assert_eq!(Operation::ReceiveMessage.wording(), "Error receiving message");
}

#[test]
fn envelope_of_create_session() {
    assert_eq!(
        SamRequest::create_session(),
        SamRequest {
            request: "session".to_string(),
            options: Some(vec![pair("session", "create"), pair("destination", "true")]),
        }
    );
}

#[test]
fn envelope_of_close_session() {
    assert_eq!(
        SamRequest::close_session("abc"),
        SamRequest { request: "close".to_string(), options: Some(vec![pair("session", "abc")]) }
    );
}

#[test]
fn envelope_of_send_message() {
    assert_eq!(
        SamRequest::send_message("dest.i2p", "hello, \"world\""),
        SamRequest {
            request: "sendmsg".to_string(),
            options: Some(vec![
                pair("destination", "dest.i2p"),
                pair("message", "hello, \"world\""),
            ]),
        }
    );
}

#[test]
fn envelope_of_receive_message() {
    assert_eq!(
        SamRequest::receive_message("abc"),
        SamRequest { request: "recvmsg".to_string(), options: Some(vec![pair("session", "abc")]) }
    );
}

#[test]
fn envelope_with_given_parts() {
    assert_eq!(
        SamRequest::new("status", None),
        SamRequest { request: "status".to_string(), options: None }
    );
    assert_eq!(
        SamRequest::new("lookup", Some(vec![pair("name", "x")])),
        SamRequest { request: "lookup".to_string(), options: Some(vec![pair("name", "x")]) }
    );
    assert_eq!(
        SamRequest::new("", Some(Vec::new())),
        SamRequest { request: String::new(), options: Some(Vec::new()) }
    );
}

#[test]
fn send_message_envelopes_differ_with_their_arguments() {
    assert_eq!(SamRequest::send_message("a", "m"), SamRequest::send_message("a", "m"));
    assert_ne!(SamRequest::send_message("a", "m"), SamRequest::send_message("b", "m"));
    assert_ne!(SamRequest::send_message("a", "m"), SamRequest::send_message("a", "n"));
    assert_ne!(SamRequest::send_message("a", "m"), SamRequest::send_message("m", "a"));
}

#[test]
fn rejection_of_an_answer() {
    assert_eq!(
        answer(false, None, Some("quota exceeded")).into_rejection(Operation::CloseSession),
        OperationError { operation: Operation::CloseSession, text: "quota exceeded".to_string() }
    );
    assert_eq!(
        answer(false, Some("m"), None).into_rejection(Operation::SendMessage),
        OperationError { operation: Operation::SendMessage, text: "Unknown error".to_string() }
    );
    assert_eq!(
        answer(false, None, Some("")).into_rejection(Operation::SendMessage),
        OperationError { operation: Operation::SendMessage, text: String::new() }
    );
}

#[test]
fn message_of_an_answer() {
    assert_eq!(answer(true, Some("dest123"), None).into_message_or("none"), "dest123");
    assert_eq!(answer(true, None, None).into_message_or("none"), "none");
    assert_eq!(answer(true, Some(""), None).into_message_or("none"), "");
}

#[test]
fn message_of_an_operation_error() {
    let text = "quota exceeded".to_string();
    assert_eq!(
        OperationError { operation: Operation::CreateSession, text: text.clone() }.message(),
        "Error creating session: quota exceeded"
    );
    assert_eq!(
        OperationError { operation: Operation::CloseSession, text: text.clone() }.message(),
        "Error closing session: quota exceeded"
    );
    assert_eq!(
        OperationError { operation: Operation::SendMessage, text: text.clone() }.message(),
        "Error sending message: quota exceeded"
    );
    assert_eq!(
        OperationError { operation: Operation::ReceiveMessage, text }.message(),
        "Error receiving message: quota exceeded"
    );
    assert_eq!(
        OperationError { operation: Operation::CloseSession, text: "Unknown error".to_string() }
            .message(),
        "Error closing session: Unknown error"
    );
    assert_eq!(
        OperationError { operation: Operation::CloseSession, text: String::new() }.message(),
        "Error closing session: "
    );
}

#[test]
fn reply_to_create_session() {
    assert_eq!(
        create_session_reply::<u8>(Ok(answer(true, Some("dest123"), None))),
        Ok("dest123".to_string())
    );
    assert_eq!(
        create_session_reply::<u8>(Ok(answer(true, None, None))),
        Ok("Unknown destination".to_string())
    );
    assert_eq!(
        create_session_reply::<u8>(Ok(answer(false, None, Some("quota exceeded")))),
        Err(failure(Operation::CreateSession, "quota exceeded"))
    );
    assert_eq!(
        create_session_reply::<u8>(Ok(answer(false, None, None))),
        Err(failure(Operation::CreateSession, "Unknown error"))
    );
    assert_eq!(create_session_reply::<u8>(Err(3)), Err(SamError::Transport(3)));
}

#[test]
fn reply_to_close_session() {
    assert_eq!(close_session_reply::<u8>(Ok(answer(true, None, None))), Ok(()));
    assert_eq!(close_session_reply::<u8>(Ok(answer(true, Some("closed"), None))), Ok(()));
    assert_eq!(
        close_session_reply::<u8>(Ok(answer(false, None, Some("quota exceeded")))),
        Err(failure(Operation::CloseSession, "quota exceeded"))
    );
    assert_eq!(
        close_session_reply::<u8>(Ok(answer(false, None, None))),
        Err(failure(Operation::CloseSession, "Unknown error"))
    );
    assert_eq!(close_session_reply::<u8>(Err(3)), Err(SamError::Transport(3)));
}

#[test]
fn reply_to_send_message() {
    assert_eq!(send_message_reply::<u8>(Ok(answer(true, None, None))), Ok(()));
    assert_eq!(
        send_message_reply::<u8>(Ok(answer(false, None, Some("quota exceeded")))),
        Err(failure(Operation::SendMessage, "quota exceeded"))
    );
    assert_eq!(
        send_message_reply::<u8>(Ok(answer(false, None, None))),
        Err(failure(Operation::SendMessage, "Unknown error"))
    );
    assert_eq!(send_message_reply::<u8>(Err(3)), Err(SamError::Transport(3)));
}

#[test]
fn reply_to_receive_message() {
    assert_eq!(
        receive_message_reply::<u8>(Ok(answer(true, Some("hello"), None))),
        Ok("hello".to_string())
    );
    assert_eq!(
        receive_message_reply::<u8>(Ok(answer(true, None, None))),
        Ok("No message".to_string())
    );
    assert_eq!(
        receive_message_reply::<u8>(Ok(answer(false, None, Some("quota exceeded")))),
        Err(failure(Operation::ReceiveMessage, "quota exceeded"))
    );
    assert_eq!(
        receive_message_reply::<u8>(Ok(answer(false, None, None))),
        Err(failure(Operation::ReceiveMessage, "Unknown error"))
    );
    assert_eq!(receive_message_reply::<u8>(Err(3)), Err(SamError::Transport(3)));
}
