use vstd::prelude::*;

verus! {

/// What went wrong in a protocol operation.
///
/// Every variant but `CryptographicFailure` reports a caller mistake: input
/// that does not decode, a wrong index or count, or a misused handle. A proof
/// or signature that merely fails to verify is not an error: verification
/// returns `Ok(false)`.
#[derive(Clone, Copy, Debug, PartialEq, Eq, Structural)]
pub enum BbsError {
    /// A byte string has the wrong length or does not decode.
    InvalidArgumentEncoding,
    /// A message index lies outside `[0, message_count)`.
    IndexOutOfBounds,
    /// The same message index is given twice.
    DuplicateIndex,
    /// Two lists that must have the same length do not.
    ArityMismatch,
    /// The public key does not decode into a usable key.
    InvalidKey,
    /// The primitives refused to produce a signature or proof.
    CryptographicFailure,
    /// A builder handle is unknown or has already been finished.
    HandleNotFound,
    /// A builder was finished before every required field was set.
    MissingField,
}

} // verus!
