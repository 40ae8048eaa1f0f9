//! The one error type: a message.

use vstd::prelude::*;
use vstd::string::*;

verus! {

/// A failure, described by a message.
#[derive(Debug)]
pub struct Error {
    message: String,
}

impl View for Error {
    type V = Seq<char>;

    /// The message.
    closed spec fn view(&self) -> Seq<char> {
        self.message@
    }
}

impl Error {
    /// The message that stands in for a native failure that carries none.
    pub open spec fn unknown_message() -> Seq<char> {
        "Unknown error"@
    }

    /// An error with the given message.
    pub fn new(message: &str) -> (error: Error)
        ensures
            error@ == message@,
    {
        Error { message: message.to_owned() }
    }

    /// An error for a failure of the native facility, with the facility's
    /// message where it gave one.
    pub fn from_native(message: Option<&str>) -> (error: Error)
        ensures
            error@ == match message {
                Some(text) => text@,
                None => Error::unknown_message(),
            },
    {
        match message {
            Some(text) => Error::new(text),
            None => Error::new("Unknown error"),
        }
    }

    /// The message.
    pub fn message(&self) -> (text: &str)
        ensures
            text@ == self@,
    {
        self.message.as_str()
    }

    /// The message, as an owned string.
    pub fn to_string(&self) -> (text: String)
        ensures
            text@ == self@,
    {
        self.message.clone()
    }
}

} // verus!
