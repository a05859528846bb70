//! The failure that a request handler reports when something went wrong
//! inside the server.

use vstd::prelude::*;

verus! {

/// The status of every response to an internal failure.
pub const INTERNAL_SERVER_ERROR: u16 = 500;

/// An internal failure. It keeps what went wrong for the server's own
/// records; the response to the client is the same for every failure and
/// gives nothing of it away.
#[derive(Debug, Clone, PartialEq, Eq)]
pub struct CustomError {
    message: String,
}

impl CustomError {
    /// What went wrong.
    pub closed spec fn message_text(&self) -> Seq<char> {
        self.message@
    }

    /// A failure that records `message`.
    pub fn new(message: String) -> (r: CustomError)
        ensures
            r.message_text() == message@,
    {
        CustomError { message }
    }

    /// What went wrong.
    pub fn message(&self) -> (r: &str)
        ensures
            r@ == self.message_text(),
    {
        self.message.as_str()
    }

    /// The status of the response: 500, whatever went wrong.
    pub fn status_code(&self) -> (r: u16)
        ensures
            r == INTERNAL_SERVER_ERROR,
    {
        INTERNAL_SERVER_ERROR
    }

    /// The content type of the response.
    pub fn content_type(&self) -> (r: &'static str)
        ensures
            r@ == "text/html; charset=utf-8"@,
    {
        "text/html; charset=utf-8"
    }

    /// The body of the response: the same words, whatever went wrong.
    pub fn body(&self) -> (r: &'static str)
        ensures
            r@ == "INTERNAL SERVER ERROR"@,
    {
        "INTERNAL SERVER ERROR"
    }
}

} // verus!
