//! The two ways in which an operation fails.

use crate::operation::Operation;
use vstd::prelude::*;

verus! {

/// The bridge answered and rejected the request.
#[derive(Debug, PartialEq, Eq)]
pub struct OperationError {
    /// The operation that was rejected.
    pub operation: Operation,
    /// The text that the bridge gave as the reason, or `"Unknown error"` where it
    /// gave none.
    pub text: String,
}

/// An [`OperationError`] as a mathematical value.
pub struct OperationErrorView {
    pub operation: Operation,
    pub text: Seq<char>,
}

impl OperationErrorView {
    /// The failure in one line: the operation's wording, a colon and a space, and
    /// the reason.
    pub open spec fn message(self) -> Seq<char> {
        self.operation.failure_wording() + ": "@ + self.text
    }
}

impl View for OperationError {
    type V = OperationErrorView;

    open spec fn view(&self) -> OperationErrorView {
        OperationErrorView { operation: self.operation, text: self.text@ }
    }
}

impl OperationError {
    /// The failure in one line, such as `Error closing session: quota exceeded`.
    pub fn message(&self) -> (line: String)
        ensures
            line@ == self@.message(),
    {
        let mut line = self.operation.wording().to_string();
        line.append(": ");
        line.append(self.text.as_str());
        line
    }
}

/// The one-line message of an operation error ends with the reason, so the
/// reason can be read in it whatever the operation was.
pub proof fn lemma_message_ends_with_the_reason(error: OperationErrorView)
    ensures
        error.message().len() >= error.text.len(),
        error.message().subrange(
            error.message().len() - error.text.len(),
            error.message().len() as int,
        ) == error.text,
{
    let head = error.operation.failure_wording() + ": "@;
    assert(error.message() == head + error.text);
    assert((head + error.text).subrange(head.len() as int, (head + error.text).len() as int)
        =~= error.text);
}

/// Why an operation failed. `E` is the transport's own error type.
#[derive(Debug, PartialEq, Eq)]
pub enum SamError<E> {
    /// The round trip failed: no connection, the request could not be sent, or the
    /// reply's body was not a response envelope. The transport's error is passed
    /// on as it came.
    Transport(E),
    /// The round trip succeeded and the bridge rejected the request.
    Operation(OperationError),
}

/// A [`SamError`] as a mathematical value.
pub enum SamErrorView<E> {
    Transport(E),
    Operation(OperationErrorView),
}

impl<E> View for SamError<E> {
    type V = SamErrorView<E>;

    open spec fn view(&self) -> SamErrorView<E> {
        match self {
            SamError::Transport(error) => SamErrorView::Transport(*error),
            SamError::Operation(error) => SamErrorView::Operation(error@),
        }
    }
}

} // verus!
