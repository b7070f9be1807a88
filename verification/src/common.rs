//! The error of the code that client and homeserver share.

use vstd::prelude::*;

verus! {

/// An error of the shared code.
#[derive(Debug, PartialEq, Eq)]
pub enum Error {
    /// A failure that has no kind of its own yet.
    Generic(String),
}

/// The words that open the text of a generic error.
pub open spec fn generic_prefix() -> Seq<char> {
    "Generic error: "@
}

impl Error {
    /// The message that the error carries.
    pub open spec fn message_spec(&self) -> Seq<char> {
        match *self {
            Error::Generic(message) => message@,
        }
    }

    /// The error as text: `Generic error: ` and the message.
    pub fn text(&self) -> (text: String)
        ensures
            text@ == generic_prefix() + self.message_spec(),
    {
        let mut text = String::from_str("Generic error: ");
        match self {
            Error::Generic(message) => text.append(message.as_str()),
        }
        text
    }
}

} // verus!
