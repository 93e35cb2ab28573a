//! The envelope in which the bridge answers.

use crate::error::{OperationError, OperationErrorView};
use crate::operation::Operation;
use vstd::prelude::*;

verus! {

/// The bridge's answer to one request.
#[derive(Debug, PartialEq, Eq)]
pub struct SamResponse {
    /// Whether the bridge carried the request out.
    pub success: bool,
    /// What the bridge hands back: a destination, a message, or a remark.
    pub message: Option<String>,
    /// The reason for a rejection.
    pub error: Option<String>,
}

/// A [`SamResponse`] as a mathematical value.
pub struct SamResponseView {
    pub success: bool,
    pub message: Option<Seq<char>>,
    pub error: Option<Seq<char>>,
}

impl SamResponseView {
    /// The reason for a rejection: the bridge's text, or `"Unknown error"` where
    /// the bridge gave none.
    pub open spec fn failure_text(self) -> Seq<char> {
        match self.error {
            Some(text) => text,
            None => "Unknown error"@,
        }
    }

    /// What the bridge handed back, or `absent` where it handed nothing back.
    pub open spec fn message_or(self, absent: Seq<char>) -> Seq<char> {
        match self.message {
            Some(text) => text,
            None => absent,
        }
    }
}

impl View for SamResponse {
    type V = SamResponseView;

    open spec fn view(&self) -> SamResponseView {
        SamResponseView {
            success: self.success,
            message: match self.message {
                Some(text) => Some(text@),
                None => None,
            },
            error: match self.error {
                Some(text) => Some(text@),
                None => None,
            },
        }
    }
}

impl SamResponse {
    /// The failure that this answer stands for when it rejects a request of
    /// `operation`.
    pub fn into_rejection(self, operation: Operation) -> (error: OperationError)
        ensures
            error@ == (OperationErrorView { operation, text: self@.failure_text() }),
    {
        let text = match self.error {
            Some(text) => text,
            None => "Unknown error".to_string(),
        };
        OperationError { operation, text }
    }

    /// What the bridge handed back, or `absent` where it handed nothing back.
    pub fn into_message_or(self, absent: &str) -> (text: String)
        ensures
            text@ == self@.message_or(absent@),
    {
        match self.message {
            Some(text) => text,
            None => absent.to_string(),
        }
    }
}

} // verus!
