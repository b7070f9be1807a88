//! What the client hands to the transport and what it takes back.
//!
//! The transport itself is the caller's: it sends a [`Request`] and reports
//! a [`Delivery`].

use crate::resolver::HomeserverAddress;
use crate::session_store::SessionCredential;
use vstd::prelude::*;

verus! {

/// The verb of a request.
#[derive(Clone, Copy, Debug, PartialEq, Eq, Structural)]
pub enum Method {
    Get,
    Put,
    Post,
    Delete,
}

/// A request to a homeserver.
#[derive(Debug, PartialEq, Eq)]
pub struct Request {
    pub method: Method,
    /// Whether the request goes over HTTPS; plain HTTP otherwise.
    pub secure: bool,
    pub address: HomeserverAddress,
    pub path: String,
    pub body: Vec<u8>,
    /// The credential to attach, where the client attaches one itself.
    pub credential: Option<SessionCredential>,
}

/// A request as plain values.
pub struct RequestView {
    pub method: Method,
    pub secure: bool,
    pub address: (Seq<char>, u16),
    pub path: Seq<char>,
    pub body: Seq<u8>,
    pub credential: Option<Seq<char>>,
}

/// The view of a credential that may be absent.
pub open spec fn credential_view(credential: Option<SessionCredential>) -> Option<Seq<char>> {
    match credential {
        Some(c) => Some(c@),
        None => None,
    }
}

impl View for Request {
    type V = RequestView;

    open spec fn view(&self) -> RequestView {
        RequestView {
            method: self.method,
            secure: self.secure,
            address: self.address@,
            path: self.path@,
            body: self.body@,
            credential: credential_view(self.credential),
        }
    }
}

/// A homeserver's answer to a request.
#[derive(Debug, PartialEq, Eq)]
pub struct Response {
    pub status: u16,
    pub body: Vec<u8>,
    /// The credential that the homeserver issued with this answer, if any.
    pub credential: Option<SessionCredential>,
}

/// A response as plain values.
pub struct ResponseView {
    pub status: u16,
    pub body: Seq<u8>,
    pub credential: Option<Seq<char>>,
}

impl View for Response {
    type V = ResponseView;

    open spec fn view(&self) -> ResponseView {
        ResponseView {
            status: self.status,
            body: self.body@,
            credential: credential_view(self.credential),
        }
    }
}

/// What became of a request.
#[derive(Debug, PartialEq, Eq)]
pub enum Delivery {
    /// The homeserver answered.
    Answered(Response),
    /// The request or its answer was lost below the protocol.  The cause is
    /// the transport's own account of the failure.
    Failed { cause: String },
}

/// The view of a delivery: the response's view, or the cause of the failure.
pub open spec fn delivery_view(delivery: Delivery) -> Result<ResponseView, Seq<char>> {
    match delivery {
        Delivery::Answered(response) => Ok(response@),
        Delivery::Failed { cause } => Err(cause@),
    }
}

/// A status of the success class.
pub open spec fn is_success(status: u16) -> bool {
    200 <= status < 300
}

/// The status that reports that nothing is there.
pub open spec fn is_not_found(status: u16) -> bool {
    status == 404
}

impl Response {
    /// Whether the status is of the success class.
    pub fn succeeded(&self) -> (yes: bool)
        ensures
            yes == is_success(self.status),
    {
        200 <= self.status && self.status < 300
    }

    /// Whether the status reports that nothing is there.
    pub fn not_found(&self) -> (yes: bool)
        ensures
            yes == is_not_found(self.status),
    {
        self.status == 404
    }
}

} // verus!
