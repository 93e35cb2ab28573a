//! Reading the outcome of a round trip.
//!
//! The outcome of a round trip is either the bridge's answer or the transport's
//! error. Each operation reads it in the same way: a transport error is passed on,
//! a rejection becomes an [`OperationError`](crate::error::OperationError), and
//! an acceptance yields what the operation returns.

use crate::error::{OperationErrorView, SamError, SamErrorView};
use crate::operation::Operation;
use crate::response::SamResponse;
use vstd::prelude::*;

verus! {

/// What an operation that returns text makes of `outcome`; `absent` is the text
/// for an acceptance that hands nothing back.
pub open spec fn text_outcome<E>(
    outcome: Result<SamResponse, E>,
    operation: Operation,
    absent: Seq<char>,
) -> Result<Seq<char>, SamErrorView<E>> {
    match outcome {
        Err(error) => Err(SamErrorView::Transport(error)),
        Ok(response) => if response.success {
            Ok(response@.message_or(absent))
        } else {
            Err(
                SamErrorView::Operation(
                    OperationErrorView { operation, text: response@.failure_text() },
                ),
            )
        },
    }
}

/// What an operation that returns nothing makes of `outcome`.
pub open spec fn unit_outcome<E>(outcome: Result<SamResponse, E>, operation: Operation) -> Result<
    (),
    SamErrorView<E>,
> {
    match outcome {
        Err(error) => Err(SamErrorView::Transport(error)),
        Ok(response) => if response.success {
            Ok(())
        } else {
            Err(
                SamErrorView::Operation(
                    OperationErrorView { operation, text: response@.failure_text() },
                ),
            )
        },
    }
}

/// The result of an operation that returns text, as a mathematical value.
pub open spec fn text_result<E>(result: Result<String, SamError<E>>) -> Result<
    Seq<char>,
    SamErrorView<E>,
> {
    match result {
        Ok(text) => Ok(text@),
        Err(error) => Err(error@),
    }
}

/// The result of an operation that returns nothing, as a mathematical value.
pub open spec fn unit_result<E>(result: Result<(), SamError<E>>) -> Result<(), SamErrorView<E>> {
    match result {
        Ok(()) => Ok(()),
        Err(error) => Err(error@),
    }
}

/// What `create_session` makes of `outcome`.
pub open spec fn create_session_outcome<E>(outcome: Result<SamResponse, E>) -> Result<
    Seq<char>,
    SamErrorView<E>,
> {
    text_outcome(outcome, Operation::CreateSession, "Unknown destination"@)
}

/// What `close_session` makes of `outcome`.
pub open spec fn close_session_outcome<E>(outcome: Result<SamResponse, E>) -> Result<
    (),
    SamErrorView<E>,
> {
    unit_outcome(outcome, Operation::CloseSession)
}

/// What `send_message` makes of `outcome`.
pub open spec fn send_message_outcome<E>(outcome: Result<SamResponse, E>) -> Result<
    (),
    SamErrorView<E>,
> {
    unit_outcome(outcome, Operation::SendMessage)
}

/// What `receive_message` makes of `outcome`.
pub open spec fn receive_message_outcome<E>(outcome: Result<SamResponse, E>) -> Result<
    Seq<char>,
    SamErrorView<E>,
> {
    text_outcome(outcome, Operation::ReceiveMessage, "No message"@)
}

fn read_text<E>(outcome: Result<SamResponse, E>, operation: Operation, absent: &str) -> (result:
    Result<String, SamError<E>>)
    ensures
        text_result(result) == text_outcome(outcome, operation, absent@),
{
    match outcome {
        Err(error) => Err(SamError::Transport(error)),
        Ok(response) => {
            if response.success {
                Ok(response.into_message_or(absent))
            } else {
                Err(SamError::Operation(response.into_rejection(operation)))
            }
        },
    }
}

fn read_unit<E>(outcome: Result<SamResponse, E>, operation: Operation) -> (result: Result<
    (),
    SamError<E>,
>)
    ensures
        unit_result(result) == unit_outcome(outcome, operation),
{
    match outcome {
        Err(error) => Err(SamError::Transport(error)),
        Ok(response) => {
            if response.success {
                Ok(())
            } else {
                Err(SamError::Operation(response.into_rejection(operation)))
            }
        },
    }
}

/// Reads the outcome of a `session` round trip: the destination of the new
/// session, `"Unknown destination"` where the bridge accepted and named none.
pub fn create_session_reply<E>(outcome: Result<SamResponse, E>) -> (result: Result<
    String,
    SamError<E>,
>)
    ensures
        text_result(result) == create_session_outcome(outcome),
{
    read_text(outcome, Operation::CreateSession, "Unknown destination")
}

/// Reads the outcome of a `close` round trip.
pub fn close_session_reply<E>(outcome: Result<SamResponse, E>) -> (result: Result<
    (),
    SamError<E>,
>)
    ensures
        unit_result(result) == close_session_outcome(outcome),
{
    read_unit(outcome, Operation::CloseSession)
}

/// Reads the outcome of a `sendmsg` round trip.
pub fn send_message_reply<E>(outcome: Result<SamResponse, E>) -> (result: Result<
    (),
    SamError<E>,
>)
    ensures
        unit_result(result) == send_message_outcome(outcome),
{
    read_unit(outcome, Operation::SendMessage)
}

/// Reads the outcome of a `recvmsg` round trip: the message, `"No message"` where
/// the bridge accepted and handed none back.
pub fn receive_message_reply<E>(outcome: Result<SamResponse, E>) -> (result: Result<
    String,
    SamError<E>,
>)
    ensures
        text_result(result) == receive_message_outcome(outcome),
{
    read_text(outcome, Operation::ReceiveMessage, "No message")
}

/// Where the bridge accepted, every operation succeeds: `create_session` and
/// `receive_message` with what the bridge handed back, or with their own words
/// where it handed nothing back, the other two with nothing.
pub proof fn lemma_acceptance_succeeds_every_operation<E>(response: SamResponse)
    requires
        response.success,
    ensures
        create_session_outcome::<E>(Ok(response)) == Ok::<Seq<char>, SamErrorView<E>>(
            response@.message_or("Unknown destination"@),
        ),
        close_session_outcome::<E>(Ok(response)) == Ok::<(), SamErrorView<E>>(()),
        send_message_outcome::<E>(Ok(response)) == Ok::<(), SamErrorView<E>>(()),
        receive_message_outcome::<E>(Ok(response)) == Ok::<Seq<char>, SamErrorView<E>>(
            response@.message_or("No message"@),
        ),
        response@.message matches Some(text) ==> response@.message_or("Unknown destination"@)
            == text && response@.message_or("No message"@) == text,
        response@.message is None ==> response@.message_or("Unknown destination"@)
            == "Unknown destination"@ && response@.message_or("No message"@) == "No message"@,
{
}

/// Where the bridge rejected, every operation fails with an operation error that
/// names the operation and carries the bridge's reason, or `"Unknown error"`
/// where the bridge gave none.
pub proof fn lemma_rejection_fails_every_operation<E>(response: SamResponse)
    requires
        !response.success,
    ensures
        create_session_outcome::<E>(Ok(response)) == Err::<Seq<char>, SamErrorView<E>>(
            SamErrorView::Operation(
                OperationErrorView {
                    operation: Operation::CreateSession,
                    text: response@.failure_text(),
                },
            ),
        ),
        close_session_outcome::<E>(Ok(response)) == Err::<(), SamErrorView<E>>(
            SamErrorView::Operation(
                OperationErrorView {
                    operation: Operation::CloseSession,
                    text: response@.failure_text(),
                },
            ),
        ),
        send_message_outcome::<E>(Ok(response)) == Err::<(), SamErrorView<E>>(
            SamErrorView::Operation(
                OperationErrorView {
                    operation: Operation::SendMessage,
                    text: response@.failure_text(),
                },
            ),
        ),
        receive_message_outcome::<E>(Ok(response)) == Err::<Seq<char>, SamErrorView<E>>(
            SamErrorView::Operation(
                OperationErrorView {
                    operation: Operation::ReceiveMessage,
                    text: response@.failure_text(),
                },
            ),
        ),
        response@.error matches Some(reason) ==> response@.failure_text() == reason,
        response@.error is None ==> response@.failure_text() == "Unknown error"@,
{
}

/// Where the transport failed, every operation fails with the transport's error
/// as it came, and none with an operation error.
pub proof fn lemma_transport_error_fails_every_operation<E>(error: E)
    ensures
        create_session_outcome::<E>(Err(error)) == Err::<Seq<char>, SamErrorView<E>>(
            SamErrorView::Transport(error),
        ),
        close_session_outcome::<E>(Err(error)) == Err::<(), SamErrorView<E>>(
            SamErrorView::Transport(error),
        ),
        send_message_outcome::<E>(Err(error)) == Err::<(), SamErrorView<E>>(
            SamErrorView::Transport(error),
        ),
        receive_message_outcome::<E>(Err(error)) == Err::<Seq<char>, SamErrorView<E>>(
            SamErrorView::Transport(error),
        ),
{
}

} // verus!
