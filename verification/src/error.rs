//! The failures an emission can end in.

use rustc_serialize::json::EncoderError;
use vstd::prelude::*;

verus! {

/// The encoder's own error type, carried through unopened.
#[verifier::external_type_specification]
#[verifier::external_body]
pub struct ExEncoderError(EncoderError);

/// Errors which may occur while sending either meta data or metric data.
#[derive(Debug)]
pub enum EmitterError {
    /// Failed to create JSON.
    JsonParseError(EncoderError),
    /// Failed to send JSON; carries the transport's own words.
    EmitError(String),
    /// The server answered, but not with the status that means success;
    /// carries the status it answered with.
    ReceiveError(String),
}

/// Result of an attempt to send meta data or a metric datum.
pub type EmitterResult = Result<(), EmitterError>;

impl From<EncoderError> for EmitterError {
    /// An encoder's error is a failure to create JSON.
    fn from(err: EncoderError) -> (e: EmitterError) {
        EmitterError::JsonParseError(err)
    }
}

impl vstd::std_specs::convert::FromSpecImpl<EncoderError> for EmitterError {
    open spec fn obeys_from_spec() -> bool {
        true
    }

    open spec fn from_spec(err: EncoderError) -> EmitterError {
        EmitterError::JsonParseError(err)
    }
}

impl EmitterError {
    /// The exit code a command line tool reports for this failure:
    /// 1 for an encoding failure, 2 for a failed send, 3 for a rejection by the server.
    pub fn exit_code(&self) -> (code: i32)
        ensures
            code == match *self {
                EmitterError::JsonParseError(_) => 1i32,
                EmitterError::EmitError(_) => 2i32,
                EmitterError::ReceiveError(_) => 3i32,
            },
    {
        match self {
            EmitterError::JsonParseError(_) => 1,
            EmitterError::EmitError(_) => 2,
            EmitterError::ReceiveError(_) => 3,
        }
    }
}

} // verus!
