//! The failures that a command from the hosted UI can end in.

use vstd::prelude::*;
use vstd::string::*;

verus! {

/// Why a command was not carried out. None of these stops the application.
#[derive(Debug, PartialEq, Eq)]
pub enum DispatchError {
    /// The message is not well-formed JSON, or names no operation.
    InvalidMessage { detail: String },
    /// The message names an operation that is not supported.
    UnknownOperation { name: String },
    /// The windowing service refused what the operation asked of it.
    WindowServiceError { context: String, detail: String },
}

/// What a dispatch error holds, with each text as a sequence of characters.
pub enum DispatchErrorView {
    InvalidMessage { detail: Seq<char> },
    UnknownOperation { name: Seq<char> },
    WindowServiceError { context: Seq<char>, detail: Seq<char> },
}

impl View for DispatchError {
    type V = DispatchErrorView;

    open spec fn view(&self) -> DispatchErrorView {
        match self {
            DispatchError::InvalidMessage { detail } => DispatchErrorView::InvalidMessage {
                detail: detail@,
            },
            DispatchError::UnknownOperation { name } => DispatchErrorView::UnknownOperation {
                name: name@,
            },
            DispatchError::WindowServiceError {
                context,
                detail,
            } => DispatchErrorView::WindowServiceError { context: context@, detail: detail@ },
        }
    }
}

/// The text that the caller sees for an error.
pub open spec fn error_message(error: DispatchErrorView) -> Seq<char> {
    match error {
        DispatchErrorView::InvalidMessage { detail } => "Invalid message: "@ + detail,
        DispatchErrorView::UnknownOperation { name } => "Unknown operation: "@ + name,
        DispatchErrorView::WindowServiceError { context, detail } => context + ": "@ + detail,
    }
}

impl DispatchError {
    /// The text that the caller sees for this error.
    pub fn message(&self) -> (r: String)
        ensures
            r@ == error_message(self@),
    {
        match self {
            DispatchError::InvalidMessage { detail } => {
                let mut out = String::from_str("Invalid message: ");
                out.append(detail.as_str());
                out
            },
            DispatchError::UnknownOperation { name } => {
                let mut out = String::from_str("Unknown operation: ");
                out.append(name.as_str());
                out
            },
            DispatchError::WindowServiceError { context, detail } => {
                let mut out = context.clone();
                out.append(": ");
                out.append(detail.as_str());
                out
            },
        }
    }
}

} // verus!
