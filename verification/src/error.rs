//! What can go wrong, by where it goes wrong.

use vstd::prelude::*;
use vstd::string::StringExecFns;

verus! {

/// A failure at the edge of the library, with what the edge said of it.
#[derive(Debug, PartialEq, Eq)]
pub enum RealtimeError {
    /// A value could not be written or read as JSON.
    Serialization(String),
    /// The one-shot request failed.
    Http(String),
    /// The persistent connection failed.
    Websocket(String),
}

/// Why an inbound frame has no meaning.
#[derive(Clone, Copy, Debug, PartialEq, Eq, Structural)]
pub enum DecodeError {
    /// The frame is not one JSON value.
    Syntax,
    /// The frame is not an object with a string `type`.
    Envelope,
    /// The member that carries the payload is absent or not a string.
    Payload,
    /// The audio payload is not base64.
    Base64,
    /// The session descriptor is absent or malformed.
    Session,
}

/// Why a command was not queued.
#[derive(Clone, Copy, Debug, PartialEq, Eq, Structural)]
pub enum SendFailure {
    /// The command has no frame: its body cannot be written.
    Unserializable,
    /// The outbound queue is closed.
    Closed,
}

/// The credential resolved to nothing.
#[derive(Debug, PartialEq, Eq)]
pub struct InvalidCredentialError {
    /// The reference that resolved to nothing, as it prints.
    pub reference: String,
}

impl View for InvalidCredentialError {
    type V = Seq<char>;

    open spec fn view(&self) -> Seq<char> {
        self.reference@
    }
}

impl InvalidCredentialError {
    /// The message that reports it.
    pub fn to_string(&self) -> (text: String)
        ensures
            text@ == "invalid api key ref: "@ + self.reference@,
    {
        let mut text = String::from_str("invalid api key ref: ");
        text.append(self.reference.as_str());
        text
    }
}

} // verus!
