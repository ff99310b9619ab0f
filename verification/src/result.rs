//! The outcome of encoding a message.

use vstd::prelude::*;
use prost::EncodeError;

verus! {

#[verifier::external_type_specification]
#[verifier::external_body]
pub struct ExEncodeError(EncodeError);

/// An encoded message, or the reason why it could not be encoded.
#[derive(Debug)]
pub enum EncodeResult {
    /// The bytes of the message.
    EncodeOk(Vec<u8>),
    /// The buffer was too small for the message.
    EncodeErr(EncodeError),
}

impl EncodeResult {
    /// The outcome of an encoding, as an `EncodeResult`.
    pub fn from(encoded: Result<Vec<u8>, EncodeError>) -> (result: Self)
        ensures
            result == match encoded {
                Ok(bytes) => EncodeResult::EncodeOk(bytes),
                Err(e) => EncodeResult::EncodeErr(e),
            },
    {
        match encoded {
            Ok(bytes) => EncodeResult::EncodeOk(bytes),
            Err(e) => EncodeResult::EncodeErr(e),
        }
    }

    /// The bytes of a message that was encoded.
    pub fn unwrap(self) -> (message: Vec<u8>)
        requires
            self is EncodeOk,
        ensures
            self == EncodeResult::EncodeOk(message),
    {
        match self {
            EncodeResult::EncodeOk(message) => message,
            EncodeResult::EncodeErr(_) => vstd::pervasive::unreached(),
        }
    }

    /// The bytes of the message if it was encoded, and else those of the
    /// request to quit, so that the instance is not left running.
    pub fn unwrap_or_quit(self, quit: EncodeResult) -> (message: Vec<u8>)
        requires
            self is EncodeOk || quit is EncodeOk,
        ensures
            self matches EncodeResult::EncodeOk(own) ==> message == own,
            self is EncodeErr ==> quit == EncodeResult::EncodeOk(message),
    {
        match self {
            EncodeResult::EncodeOk(ok_message) => ok_message,
            EncodeResult::EncodeErr(_) => match quit {
                EncodeResult::EncodeOk(quit_message) => quit_message,
                EncodeResult::EncodeErr(_) => vstd::pervasive::unreached(),
            },
        }
    }

    /// The bytes of the message if it was encoded, else those of the request
    /// to quit if that one was; nothing where neither was.
    pub fn ok_or_quit(self, quit: EncodeResult) -> (message: Option<Vec<u8>>)
        ensures
            message == match (self, quit) {
                (EncodeResult::EncodeOk(own), _) => Some(own),
                (EncodeResult::EncodeErr(_), EncodeResult::EncodeOk(other)) => Some(other),
                _ => None,
            },
    {
        match self {
            EncodeResult::EncodeOk(own) => Some(own),
            EncodeResult::EncodeErr(_) => match quit {
                EncodeResult::EncodeOk(other) => Some(other),
                EncodeResult::EncodeErr(_) => None,
            },
        }
    }
}

} // verus!
