//! What can go wrong between the client and the server.

use vstd::prelude::*;
use vstd::string::*;

verus! {

/// A failure, with the message that came with it.
#[derive(Clone, Debug, PartialEq, Eq)]
pub enum Error {
    /// The channel to the server could not be opened.
    Connection(String),
    /// The open channel failed while writing or reading.
    Io(String),
    /// A message could not be encoded or decoded, the server answered with
    /// an error, or the line editor could not be set up.
    JsonRpc(String),
}

/// An `Error` as contracts see it.
pub enum ErrorView {
    Connection(Seq<char>),
    Io(Seq<char>),
    JsonRpc(Seq<char>),
}

impl View for Error {
    type V = ErrorView;

    open spec fn view(&self) -> ErrorView {
        match self {
            Error::Connection(message) => ErrorView::Connection(message@),
            Error::Io(message) => ErrorView::Io(message@),
            Error::JsonRpc(message) => ErrorView::JsonRpc(message@),
        }
    }
}

/// The text shown for an error: a connection and a transport failure are
/// introduced as such, a protocol failure is shown as it came.
pub open spec fn described(error: ErrorView) -> Seq<char> {
    match error {
        ErrorView::Connection(message) => "connection error: "@ + message,
        ErrorView::Io(message) => "I/O error: "@ + message,
        ErrorView::JsonRpc(message) => message,
    }
}

impl Error {
    /// The text to show for this error.
    pub fn describe(&self) -> (shown: String)
        ensures
            shown@ == described(self@),
    {
        match self {
            Error::Connection(message) => String::from_str("connection error: ").concat(
                message.as_str(),
            ),
            Error::Io(message) => String::from_str("I/O error: ").concat(message.as_str()),
            Error::JsonRpc(message) => String::from_str(message.as_str()),
        }
    }
}

} // verus!
