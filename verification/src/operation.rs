//! The operations that the bridge offers.

use vstd::prelude::*;

verus! {

/// One of the bridge's four operations.
#[derive(Debug, Clone, Copy, PartialEq, Eq, Structural)]
pub enum Operation {
    /// Opens a session; the bridge answers with the session's destination.
    CreateSession,
    /// Closes a session.
    CloseSession,
    /// Sends a message to a destination.
    SendMessage,
    /// Fetches a message that arrived for a session.
    ReceiveMessage,
}

impl Operation {
    /// The tag that names the operation in a request envelope.
    pub open spec fn kind(self) -> Seq<char> {
        match self {
            Operation::CreateSession => "session"@,
            Operation::CloseSession => "close"@,
            Operation::SendMessage => "sendmsg"@,
            Operation::ReceiveMessage => "recvmsg"@,
        }
    }

    /// The words that open the message of a failure of the operation.
    pub open spec fn failure_wording(self) -> Seq<char> {
        match self {
            Operation::CreateSession => "Error creating session"@,
            Operation::CloseSession => "Error closing session"@,
            Operation::SendMessage => "Error sending message"@,
            Operation::ReceiveMessage => "Error receiving message"@,
        }
    }

    /// The tag that names the operation in a request envelope.
    pub fn request_kind(self) -> (kind: &'static str)
        ensures
            kind@ == self.kind(),
    {
        match self {
            Operation::CreateSession => "session",
            Operation::CloseSession => "close",
            Operation::SendMessage => "sendmsg",
            Operation::ReceiveMessage => "recvmsg",
        }
    }

    /// The words that open the message of a failure of the operation.
    pub fn wording(self) -> (words: &'static str)
        ensures
            words@ == self.failure_wording(),
    {
        match self {
            Operation::CreateSession => "Error creating session",
            Operation::CloseSession => "Error closing session",
            Operation::SendMessage => "Error sending message",
            Operation::ReceiveMessage => "Error receiving message",
        }
    }
}

} // verus!
