use vstd::prelude::*;

verus! {

/// Declaration of the collaborator's error type, so that decode failures
/// surfaced by `dcbor` can be passed through unchanged.
#[verifier::external_type_specification]
#[verifier::external_body]
pub struct ExCborError(dcbor::Error);

/// The three failure kinds of this crate, never conflated.
#[derive(Debug)]
pub enum NanError {
    /// A failure surfaced by the `dcbor` collaborator during decode (wrong
    /// payload type, malformed envelope, tag mismatch), passed through.
    Cbor(dcbor::Error),
    /// The supplied byte buffer's length is not 2, 4, 8 or 16; carries the
    /// offending length.
    InvalidLength(usize),
    /// The buffer has a valid length but its bits do not encode a NaN of the
    /// corresponding width (for example an infinity or a finite number).
    NotANan,
}

} // verus!
