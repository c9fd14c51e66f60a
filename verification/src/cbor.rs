use vstd::prelude::*;

use vstd::pervasive::unreached;

use crate::error::NanError;
use crate::nan_bstr::{valid_nan_bytes, NanBstr};
use crate::nan_width::valid_nan_len;

verus! {

/// The CBOR tag dedicated to NaN byte strings.
pub const TAG_NAN_BSTR: u64 = 102;

/// Declaration of the collaborator's CBOR value type. A value of it is
/// opaque here; what the codec reads of one is captured by the two content
/// functions below.
#[verifier::external_type_specification]
#[verifier::external_body]
pub struct ExCbor(dcbor::CBOR);

/// The bytes a CBOR value holds when it is a byte string (major type 2),
/// and nothing when it is any other shape of value.
pub uninterp spec fn cbor_byte_string(c: dcbor::CBOR) -> Option<Seq<u8>>;

/// The tag and payload bytes a CBOR value holds when it is a tagged value
/// (major type 6) whose item is a byte string, and nothing when it is any
/// other shape of value.
pub uninterp spec fn cbor_tagged_byte_string(c: dcbor::CBOR) -> Option<(u64, Seq<u8>)>;

/// Relies on dcbor's `CBOR::to_byte_string`: the result is a byte-string
/// value holding exactly the given bytes.
#[verifier::external_body]
fn byte_string_cbor(bytes: &[u8]) -> (c: dcbor::CBOR)
    ensures
        cbor_byte_string(c) == Some(bytes@),
{
    dcbor::CBOR::to_byte_string(bytes)
}

/// Relies on dcbor's `CBOR::to_tagged_value`: the result is a tagged value
/// pairing the given tag with the given item.
#[verifier::external_body]
fn tag_wrap(tag: u64, item: dcbor::CBOR) -> (c: dcbor::CBOR)
    ensures
        cbor_byte_string(item) matches Some(b) ==> cbor_tagged_byte_string(c) == Some((tag, b)),
{
    dcbor::CBOR::to_tagged_value(tag, item)
}

/// Holds when `r` succeeded with an item holding exactly the bytes `b`.
pub open spec fn unwraps_to_byte_string(r: Result<dcbor::CBOR, dcbor::Error>, b: Seq<u8>) -> bool {
    r matches Ok(inner) && cbor_byte_string(inner) == Some(b)
}

/// Holds when `r` is a passed-through collaborator error.
pub open spec fn unwrap_failed(r: Result<dcbor::CBOR, dcbor::Error>) -> bool {
    r is Err
}

/// Holds when `r` succeeded with exactly the bytes `b`.
pub open spec fn extracts_bytes(r: Result<Vec<u8>, dcbor::Error>, b: Seq<u8>) -> bool {
    r matches Ok(v) && v@ == b
}

/// Holds when `r` is a passed-through collaborator error.
pub open spec fn extract_failed(r: Result<Vec<u8>, dcbor::Error>) -> bool {
    r is Err
}

/// Relies on dcbor's `CBOR::try_into_expected_tagged_value`: it returns the
/// inner item when the value is tagged with the expected tag, and an error
/// when the value is tagged otherwise.
#[verifier::external_body]
fn tag_unwrap(c: dcbor::CBOR, tag: u64) -> (r: Result<dcbor::CBOR, dcbor::Error>)
    ensures
        cbor_tagged_byte_string(c) matches Some((t, b)) ==> (t == tag ==> unwraps_to_byte_string(
            r,
            b,
        )) && (t != tag ==> unwrap_failed(r)),
{
    c.try_into_expected_tagged_value(tag)
}

/// Relies on dcbor's `CBOR::try_into_byte_string`: it returns the bytes of
/// a byte-string value, and an error for every other shape of value.
#[verifier::external_body]
fn byte_string_extract(c: dcbor::CBOR) -> (r: Result<Vec<u8>, dcbor::Error>)
    ensures
        cbor_byte_string(c) matches Some(b) ==> extracts_bytes(r, b),
        cbor_byte_string(c) is None ==> extract_failed(r),
{
    c.try_into_byte_string()
}

impl NanBstr {
    /// The value's raw bytes as an untagged CBOR byte string.
    pub fn untagged_cbor(&self) -> (c: dcbor::CBOR)
        ensures
            cbor_byte_string(c) == Some(self@),
    {
        byte_string_cbor(self.as_bytes())
    }

    /// The value's wire form: its raw bytes as a byte string under tag 102.
    pub fn tagged_cbor(&self) -> (c: dcbor::CBOR)
        ensures
            cbor_tagged_byte_string(c) == Some((TAG_NAN_BSTR, self@)),
    {
        tag_wrap(TAG_NAN_BSTR, self.untagged_cbor())
    }

    /// The value's CBOR form; identical to `tagged_cbor`.
    pub fn to_cbor(&self) -> (c: dcbor::CBOR)
        ensures
            cbor_tagged_byte_string(c) == Some((TAG_NAN_BSTR, self@)),
    {
        self.tagged_cbor()
    }

    /// Decode from an untagged CBOR byte string. The payload must be a byte
    /// string — any other shape fails with the collaborator's own error,
    /// passed through — and its bytes run through the full validation of
    /// `from_be_bytes`: untrusted wire input can never bypass it.
    pub fn from_untagged_cbor(cbor: dcbor::CBOR) -> (r: Result<NanBstr, NanError>)
        ensures
            r matches Ok(n) ==> valid_nan_bytes(n@),
            cbor_byte_string(cbor) matches Some(b) ==> {
                &&& valid_nan_bytes(b) ==> (r matches Ok(n) && n@ == b)
                &&& !valid_nan_len(b.len()) ==> r == Err::<NanBstr, NanError>(
                    NanError::InvalidLength(b.len() as usize),
                )
                &&& valid_nan_len(b.len()) && !valid_nan_bytes(b) ==> r == Err::<
                    NanBstr,
                    NanError,
                >(NanError::NotANan)
            },
            cbor_byte_string(cbor) is None ==> (r matches Err(e) && e matches NanError::Cbor(_)),
    {
        match byte_string_extract(cbor) {
            Err(e) => Err(NanError::Cbor(e)),
            Ok(v) => NanBstr::from_be_bytes(v.as_slice()),
        }
    }

    /// Decode from the tagged wire form: the envelope must carry tag 102
    /// over a byte string, whose bytes are then re-validated in full.
    pub fn from_tagged_cbor(cbor: dcbor::CBOR) -> (r: Result<NanBstr, NanError>)
        ensures
            r matches Ok(n) ==> valid_nan_bytes(n@),
            cbor_tagged_byte_string(cbor) matches Some((t, b)) ==> (t == TAG_NAN_BSTR ==> {
                &&& valid_nan_bytes(b) ==> (r matches Ok(n) && n@ == b)
                &&& !valid_nan_len(b.len()) ==> r == Err::<NanBstr, NanError>(
                    NanError::InvalidLength(b.len() as usize),
                )
                &&& valid_nan_len(b.len()) && !valid_nan_bytes(b) ==> r == Err::<
                    NanBstr,
                    NanError,
                >(NanError::NotANan)
            }) && (t != TAG_NAN_BSTR ==> (r matches Err(e) && e matches NanError::Cbor(_))),
    {
        match tag_unwrap(cbor, TAG_NAN_BSTR) {
            Err(e) => Err(NanError::Cbor(e)),
            Ok(inner) => NanBstr::from_untagged_cbor(inner),
        }
    }

    /// Round-trip law: for every value — hence for all four widths, both
    /// signs and both quiet/signaling states — encoding to the tagged wire
    /// form and decoding back yields a value equal to the original,
    /// equality being equality of the raw bytes.
    pub fn tagged_cbor_round_trip(&self) -> (m: NanBstr)
        ensures
            m@ == self@,
    {
        proof {
            use_type_invariant(&*self);
        }
        let c = self.tagged_cbor();
        match NanBstr::from_tagged_cbor(c) {
            Ok(m) => m,
            Err(_) => unreached(),
        }
    }
}

} // verus!
