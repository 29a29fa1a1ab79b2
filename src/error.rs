//! Per-request failures of proof verification and request handling.
use vstd::prelude::*;

verus! {

/// Why a proof payload was not accepted. Every variant is local to one
/// request and leads to rejecting it.
#[derive(Debug, Clone, Copy, PartialEq, Eq, Structural)]
pub enum VerifyError {
    /// The payload is not an even-length string of hex digits.
    MalformedHex,
    /// The decoded payload has no room for a receipt before the identity.
    PayloadTooSmall,
    /// The receipt bytes do not decode as a receipt.
    DeserializationError,
    /// Verification failed and the embedded identity is not the expected one.
    IdentityMismatch,
    /// Verification failed although the embedded identity is the expected one.
    VerificationFailed,
    /// The receipt verified but its journal does not hold a boolean.
    MalformedJournal,
}

/// A request that lacks a field its kind requires.
#[derive(Debug, Clone, Copy, PartialEq, Eq, Structural)]
pub enum RequestError {
    MissingField,
    MissingPayload,
}

} // verus!
