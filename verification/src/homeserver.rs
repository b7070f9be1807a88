//! The error that a homeserver answers with: an HTTP status and, where
//! there is something to say, a detail for the body.

use vstd::prelude::*;

verus! {

/// The numbers that are HTTP status codes: 100 to 999.
pub open spec fn is_status(code: u16) -> bool {
    100 <= code <= 999
}

/// An HTTP status code.
#[derive(Clone, Copy, Debug, PartialEq, Eq, Hash)]
pub struct StatusCode {
    code: u16,
}

impl View for StatusCode {
    type V = u16;

    closed spec fn view(&self) -> u16 {
        self.code
    }
}

impl StatusCode {
    /// A status code is always one of the numbers from 100 to 999.
    #[verifier::type_invariant]
    closed spec fn in_range(&self) -> bool {
        is_status(self.code)
    }

    /// The status with the given number, where it is a status code.
    pub fn from_u16(code: u16) -> (status: Option<StatusCode>)
        ensures
            status is Some <==> is_status(code),
            status is Some ==> status->Some_0@ == code,
    {
        if 100 <= code && code <= 999 {
            Some(StatusCode { code })
        } else {
            None
        }
    }

    /// The status's number, which is from 100 to 999.
    pub fn as_u16(&self) -> (code: u16)
        ensures
            code == self@,
            is_status(code),
    {
        proof {
            use_type_invariant(self);
        }
        self.code
    }

    /// 400 Bad Request.
    pub fn bad_request() -> (status: StatusCode)
        ensures
            status@ == 400,
    {
        StatusCode { code: 400 }
    }

    /// 500 Internal Server Error.
    pub fn internal_server_error() -> (status: StatusCode)
        ensures
            status@ == 500,
    {
        StatusCode { code: 500 }
    }
}

/// A homeserver's error.
#[derive(Debug, Clone)]
pub struct Error {
    status: StatusCode,
    detail: Option<String>,
}

/// The text of a detail that may be absent.
pub open spec fn detail_view(detail: Option<String>) -> Option<Seq<char>> {
    match detail {
        Some(text) => Some(text@),
        None => None,
    }
}

impl Error {
    /// The status to answer with.
    pub closed spec fn status_spec(&self) -> u16 {
        self.status@
    }

    /// The detail to answer with.
    pub closed spec fn detail_spec(&self) -> Option<Seq<char>> {
        detail_view(self.detail)
    }

    /// An error with a status and no detail.
    pub fn with_status(status: StatusCode) -> (error: Error)
        ensures
            error.status_spec() == status@,
            error.detail_spec() is None,
    {
        Error { status, detail: None }
    }

    /// An error with a status and the detail given.
    pub fn new(status_code: StatusCode, message: Option<String>) -> (error: Error)
        ensures
            error.status_spec() == status_code@,
            error.detail_spec() == detail_view(message),
    {
        Error { status: status_code, detail: message }
    }

    /// The status to answer with.
    pub fn status(&self) -> (status: StatusCode)
        ensures
            status@ == self.status_spec(),
    {
        self.status
    }

    /// The answer that the error stands for: the status's number, and the
    /// detail as the body where there is one.
    pub fn into_parts(self) -> (parts: (u16, Option<String>))
        ensures
            parts.0 == self.status_spec(),
            is_status(parts.0),
            detail_view(parts.1) == self.detail_spec(),
    {
        (self.status.as_u16(), self.detail)
    }
}

impl Default for Error {
    /// 500 Internal Server Error, without a detail.
    fn default() -> (error: Error)
        ensures
            error.status_spec() == 500,
            error.detail_spec() is None,
    {
        Error { status: StatusCode::internal_server_error(), detail: None }
    }
}

} // verus!
