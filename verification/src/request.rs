//! The envelope in which a request travels to the bridge.

use crate::operation::Operation;
use vstd::prelude::*;

verus! {

/// One request to the bridge: the tag of the operation and its options.
#[derive(Debug, PartialEq, Eq)]
pub struct SamRequest {
    /// The tag that names the operation.
    pub request: String,
    /// The options of the operation, each a name and its text, in the order in
    /// which they are written; `None` where the request has none.
    pub options: Option<Vec<(String, String)>>,
}

/// A [`SamRequest`] as a mathematical value.
pub struct SamRequestView {
    pub request: Seq<char>,
    pub options: Option<Seq<(Seq<char>, Seq<char>)>>,
}

impl SamRequestView {
    /// Whether the options are a mapping: no name is given twice.
    pub open spec fn has_distinct_names(self) -> bool {
        match self.options {
            Some(entries) => forall|i: int, j: int|
                0 <= i < j < entries.len() ==> (#[trigger] entries[i]).0 != (#[trigger] entries[j]).0,
            None => true,
        }
    }
}

impl View for SamRequest {
    type V = SamRequestView;

    open spec fn view(&self) -> SamRequestView {
        SamRequestView { request: self.request@, options: self.options.deep_view() }
    }
}

/// The envelope that opens a session and asks for its destination.
pub open spec fn create_session_envelope() -> SamRequestView {
    SamRequestView {
        request: Operation::CreateSession.kind(),
        options: Some(seq![("session"@, "create"@), ("destination"@, "true"@)]),
    }
}

/// The envelope that closes the session `session_id`.
pub open spec fn close_session_envelope(session_id: Seq<char>) -> SamRequestView {
    SamRequestView {
        request: Operation::CloseSession.kind(),
        options: Some(seq![("session"@, session_id)]),
    }
}

/// The envelope that sends `message` to `destination`.
pub open spec fn send_message_envelope(
    destination: Seq<char>,
    message: Seq<char>,
) -> SamRequestView {
    SamRequestView {
        request: Operation::SendMessage.kind(),
        options: Some(seq![("destination"@, destination), ("message"@, message)]),
    }
}

/// The envelope that fetches a message for the session `session_id`.
pub open spec fn receive_message_envelope(session_id: Seq<char>) -> SamRequestView {
    SamRequestView {
        request: Operation::ReceiveMessage.kind(),
        options: Some(seq![("session"@, session_id)]),
    }
}

fn entry(name: &str, text: &str) -> (entry: (String, String))
    ensures
        entry.deep_view() == (name@, text@),
{
    (name.to_string(), text.to_string())
}

impl SamRequest {
    /// An envelope with the tag `request` and the given options.
    pub fn new(request: &str, options: Option<Vec<(String, String)>>) -> (envelope: SamRequest)
        ensures
            envelope@ == (SamRequestView { request: request@, options: options.deep_view() }),
    {
        SamRequest { request: request.to_string(), options }
    }

    /// The envelope that opens a session and asks for its destination.
    pub fn create_session() -> (envelope: SamRequest)
        ensures
            envelope@ == create_session_envelope(),
            envelope@.has_distinct_names(),
    {
        let mut options: Vec<(String, String)> = Vec::new();
        options.push(entry("session", "create"));
        options.push(entry("destination", "true"));
        proof {
            assert(options.deep_view() =~= seq![("session"@, "create"@), ("destination"@, "true"@)]);
            reveal_strlit("session");
            reveal_strlit("destination");
            assert("session"@.len() != "destination"@.len());
        }
        SamRequest::new(Operation::CreateSession.request_kind(), Some(options))
    }

    /// The envelope that closes the session `session_id`.
    pub fn close_session(session_id: &str) -> (envelope: SamRequest)
        ensures
            envelope@ == close_session_envelope(session_id@),
            envelope@.has_distinct_names(),
    {
        let mut options: Vec<(String, String)> = Vec::new();
        options.push(entry("session", session_id));
        proof {
            assert(options.deep_view() =~= seq![("session"@, session_id@)]);
        }
        SamRequest::new(Operation::CloseSession.request_kind(), Some(options))
    }

    /// The envelope that sends `message` to `destination`.
    pub fn send_message(destination: &str, message: &str) -> (envelope: SamRequest)
        ensures
            envelope@ == send_message_envelope(destination@, message@),
            envelope@.has_distinct_names(),
    {
        let mut options: Vec<(String, String)> = Vec::new();
        options.push(entry("destination", destination));
        options.push(entry("message", message));
        proof {
            assert(options.deep_view() =~= seq![
                ("destination"@, destination@),
                ("message"@, message@),
            ]);
            reveal_strlit("destination");
            reveal_strlit("message");
            assert("destination"@.len() != "message"@.len());
        }
        SamRequest::new(Operation::SendMessage.request_kind(), Some(options))
    }

    /// The envelope that fetches a message for the session `session_id`.
    pub fn receive_message(session_id: &str) -> (envelope: SamRequest)
        ensures
            envelope@ == receive_message_envelope(session_id@),
            envelope@.has_distinct_names(),
    {
        let mut options: Vec<(String, String)> = Vec::new();
        options.push(entry("session", session_id));
        proof {
            assert(options.deep_view() =~= seq![("session"@, session_id@)]);
        }
        SamRequest::new(Operation::ReceiveMessage.request_kind(), Some(options))
    }
}

/// A `sendmsg` envelope holds the destination and the message of its own call and
/// nothing else that varies: two such envelopes are equal exactly where the two
/// calls agree in both. So the body of one call is never the body of another call
/// with other arguments, however the calls overlap in time.
pub proof fn lemma_send_message_envelopes_tell_calls_apart(
    first_destination: Seq<char>,
    first_message: Seq<char>,
    second_destination: Seq<char>,
    second_message: Seq<char>,
)
    ensures
        send_message_envelope(first_destination, first_message) == send_message_envelope(
            second_destination,
            second_message,
        ) <==> first_destination == second_destination && first_message == second_message,
{
    let first = send_message_envelope(first_destination, first_message);
    let second = send_message_envelope(second_destination, second_message);
    if first == second {
        assert(first.options->0[0] == second.options->0[0]);
        assert(first.options->0[1] == second.options->0[1]);
    }
}

} // verus!
