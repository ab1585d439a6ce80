use vstd::prelude::*;

verus! {

/// A string handed to the native layer held a NUL byte.
///
/// `position` is the byte index of the first NUL, `bytes` the whole
/// UTF-8 encoding of the string that was refused.
#[derive(Debug, Clone)]
pub struct NulError {
    pub position: usize,
    pub bytes: Vec<u8>,
}

impl NulError {
    /// Byte index of the first NUL in the refused string.
    pub fn nul_position(&self) -> (r: usize)
        ensures
            r == self.position,
    {
        self.position
    }

    /// The refused string's bytes.
    pub fn into_vec(self) -> (r: Vec<u8>)
        ensures
            r@ == self.bytes@,
    {
        self.bytes
    }
}

/// Errors returned by the server, client and connection operations.
#[derive(Debug)]
pub enum Error {
    /// A message recorded by the native layer for the failed call.
    Tailcat(String),
    /// The operation timed out.
    Timeout,
    /// The handle is not (or no longer) valid, and no message was recorded.
    InvalidHandle,
    /// A string argument could not be handed to the native layer.
    InvalidString(NulError),
}

/// Result type of this crate's fallible operations.
pub type Result<T> = core::result::Result<T, Error>;

/// The error that a failed native call reports, given the message (if any)
/// that the native layer recorded for its handle.
pub open spec fn spec_take_error(last_error: Option<String>) -> Error {
    match last_error {
        Some(msg) => Error::Tailcat(msg),
        None => Error::InvalidHandle,
    }
}

/// A failed native call reports the recorded message verbatim as a
/// `Tailcat` error, and `InvalidHandle` only when no message was recorded.
pub proof fn lemma_take_error(msg: String)
    ensures
        spec_take_error(Some(msg)) == Error::Tailcat(msg),
        spec_take_error(None) == Error::InvalidHandle,
        spec_take_error(Some(msg)) != Error::InvalidHandle,
{
}

/// Turns the message recorded for a failed native call into an error:
/// the message itself when there is one, `InvalidHandle` otherwise.
pub fn take_error(last_error: Option<String>) -> (r: Error)
    ensures
        r == spec_take_error(last_error),
{
    match last_error {
        Some(msg) => Error::Tailcat(msg),
        None => Error::InvalidHandle,
    }
}

impl From<NulError> for Error {
    fn from(e: NulError) -> (r: Error) {
        Error::InvalidString(e)
    }
}

impl vstd::std_specs::convert::FromSpecImpl<NulError> for Error {
    open spec fn obeys_from_spec() -> bool {
        true
    }

    open spec fn from_spec(e: NulError) -> Error {
        Error::InvalidString(e)
    }
}

} // verus!
