//! The failures that the client reports.

use crate::auth::AuthReason;
use vstd::prelude::*;

verus! {

/// Why an operation of the client failed.
#[derive(Debug, PartialEq, Eq)]
pub enum Error {
    /// No relay gave a usable record for the key.
    ResolutionFailed,
    /// The homeserver refused the proof of identity or the credential.  The
    /// status and the body of its answer come along.
    Auth { reason: AuthReason, status: u16, detail: Vec<u8> },
    /// The operation needs a session and the client holds none.
    Unauthenticated,
    /// The homeserver answered with a status that the operation does not
    /// expect.  The detail is the body of that answer.
    Remote { status: u16, detail: Vec<u8> },
    /// The homeserver did not accept the signup.
    SignupFailed { status: u16, detail: Vec<u8> },
    /// The request or its answer was lost below the protocol.  The cause is
    /// the transport's own account, handed on as it came.
    Transport { cause: String },
}

/// An error as plain values.
pub enum ErrorView {
    ResolutionFailed,
    Auth { reason: AuthReason, status: u16, detail: Seq<u8> },
    Unauthenticated,
    Remote { status: u16, detail: Seq<u8> },
    SignupFailed { status: u16, detail: Seq<u8> },
    Transport { cause: Seq<char> },
}

impl View for Error {
    type V = ErrorView;

    open spec fn view(&self) -> ErrorView {
        match *self {
            Error::ResolutionFailed => ErrorView::ResolutionFailed,
            Error::Auth { reason, status, detail } => ErrorView::Auth {
                reason,
                status,
                detail: detail@,
            },
            Error::Unauthenticated => ErrorView::Unauthenticated,
            Error::Remote { status, detail } => ErrorView::Remote { status, detail: detail@ },
            Error::SignupFailed { status, detail } => ErrorView::SignupFailed {
                status,
                detail: detail@,
            },
            Error::Transport { cause } => ErrorView::Transport { cause: cause@ },
        }
    }
}

} // verus!
