use vstd::prelude::*;

use vstd::arithmetic::power2::{lemma2_to64, lemma_pow2_adds};
use vstd::pervasive::unreached;
use vstd::slice::slice_to_vec;

use crate::bytes::{
    be_bytes_to_u128, be_u128, lemma_be_uint_bound, lemma_be_uint_of_be_bytes, spec_be_bytes,
    u128_to_be_bytes,
};
use crate::error::NanError;
use crate::nan_width::{spec_width_of_len, valid_nan_len, NanWidth};

verus! {

/// True when the exponent field of `bits` is all ones in the layout of
/// width `w`. The exponent field sits immediately below the sign bit and
/// spans 5, 8, 11 or 15 bits.
pub open spec fn spec_exp_all_ones(w: NanWidth, bits: u128) -> bool {
    match w {
        NanWidth::Binary16 => (bits >> 10u128) & 0x1F == 0x1F,
        NanWidth::Binary32 => (bits >> 23u128) & 0xFF == 0xFF,
        NanWidth::Binary64 => (bits >> 52u128) & 0x7FF == 0x7FF,
        NanWidth::Binary128 => (bits >> 112u128) & 0x7FFF == 0x7FFF,
    }
}

/// The fraction field of `bits` in the layout of width `w`: the low 10, 23,
/// 52 or 112 bits, quiet/signaling indicator included.
pub open spec fn spec_fraction(w: NanWidth, bits: u128) -> u128 {
    match w {
        NanWidth::Binary16 => bits & 0x3FF,
        NanWidth::Binary32 => bits & 0x7F_FFFF,
        NanWidth::Binary64 => bits & 0xF_FFFF_FFFF_FFFF,
        NanWidth::Binary128 => bits & 0xFFFF_FFFF_FFFF_FFFF_FFFF_FFFF_FFFF,
    }
}

/// True iff `bits` encodes a NaN of width `w`: exponent field all ones and
/// fraction field nonzero. All-ones exponent with zero fraction is an
/// infinity and is explicitly excluded.
pub open spec fn spec_is_nan(w: NanWidth, bits: u128) -> bool {
    spec_exp_all_ones(w, bits) && spec_fraction(w, bits) != 0
}

/// The sign bit of `bits`: the single most significant bit of the layout.
pub open spec fn spec_sign(w: NanWidth, bits: u128) -> bool {
    match w {
        NanWidth::Binary16 => (bits >> 15u128) & 1 == 1,
        NanWidth::Binary32 => (bits >> 31u128) & 1 == 1,
        NanWidth::Binary64 => (bits >> 63u128) & 1 == 1,
        NanWidth::Binary128 => (bits >> 127u128) & 1 == 1,
    }
}

/// The quiet/signaling indicator of `bits`: the most significant bit of the
/// fraction field. Set means quiet, clear means signaling.
pub open spec fn spec_quiet(w: NanWidth, bits: u128) -> bool {
    match w {
        NanWidth::Binary16 => (bits >> 9u128) & 1 == 1,
        NanWidth::Binary32 => (bits >> 22u128) & 1 == 1,
        NanWidth::Binary64 => (bits >> 51u128) & 1 == 1,
        NanWidth::Binary128 => (bits >> 111u128) & 1 == 1,
    }
}

/// The payload of `bits`: the fraction field with the quiet/signaling
/// indicator masked off, spanning 9, 22, 51 or 111 bits.
pub open spec fn spec_payload(w: NanWidth, bits: u128) -> u128 {
    match w {
        NanWidth::Binary16 => bits & 0x1FF,
        NanWidth::Binary32 => bits & 0x3F_FFFF,
        NanWidth::Binary64 => bits & 0x7_FFFF_FFFF_FFFF,
        NanWidth::Binary128 => bits & 0x7FFF_FFFF_FFFF_FFFF_FFFF_FFFF_FFFF,
    }
}

/// The place value of the quiet/signaling indicator in the layout of width
/// `w`: 2^(fraction bits - 1).
pub open spec fn spec_quiet_bit(w: NanWidth) -> u128 {
    match w {
        NanWidth::Binary16 => 0x200,
        NanWidth::Binary32 => 0x40_0000,
        NanWidth::Binary64 => 0x8_0000_0000_0000,
        NanWidth::Binary128 => 0x8000_0000_0000_0000_0000_0000_0000,
    }
}

/// True iff `s` is a byte buffer that a `NanBstr` may hold: one of the four
/// interchange lengths, and a NaN bit pattern for the matching width. This
/// predicate is the single source of truth for validity; every construction
/// path establishes it and decode re-checks it on untrusted input.
pub open spec fn valid_nan_bytes(s: Seq<u8>) -> bool {
    valid_nan_len(s.len()) && spec_is_nan(spec_width_of_len(s.len()), be_u128(s))
}

/// A wrapper for an IEEE-754 NaN bit pattern transported as a byte string
/// under CBOR tag 102.
///
/// The enclosed bytes are kept exactly as given (big-endian); no
/// canonicalization of sign, quiet/signaling state or payload is performed.
/// Equality, ordering and hashing are those of the raw byte buffer
/// (lexicographic, big-endian), so two patterns differing only in payload
/// compare unequal and values are usable as map keys.
#[derive(Debug, PartialEq, Eq, Hash, PartialOrd, Ord)]
pub struct NanBstr {
    bytes: Vec<u8>,
}

impl Clone for NanBstr {
    /// A clone holds exactly the bytes of the original.
    fn clone(&self) -> (r: Self)
        ensures
            r@ == self@,
    {
        proof {
            use_type_invariant(&*self);
        }
        let bytes = self.bytes.clone();
        proof {
            assert(bytes@ =~= self.bytes@);
        }
        NanBstr { bytes }
    }
}

impl View for NanBstr {
    type V = Seq<u8>;

    closed spec fn view(&self) -> Seq<u8> {
        self.bytes@
    }
}

/// Decides whether `be_bytes`, read big-endian, encodes a NaN of `width`.
fn is_nan_bits(width: NanWidth, be_bytes: &[u8]) -> (r: bool)
    requires
        be_bytes@.len() == width.spec_len(),
    ensures
        r == spec_is_nan(width, be_u128(be_bytes@)),
{
    let bits = be_bytes_to_u128(be_bytes);
    match width {
        NanWidth::Binary16 => (bits >> 10u128) & 0x1F == 0x1F && bits & 0x3FF != 0,
        NanWidth::Binary32 => (bits >> 23u128) & 0xFF == 0xFF && bits & 0x7F_FFFF != 0,
        NanWidth::Binary64 => (bits >> 52u128) & 0x7FF == 0x7FF && bits & 0xF_FFFF_FFFF_FFFF != 0,
        NanWidth::Binary128 => (bits >> 112u128) & 0x7FFF == 0x7FFF && bits
            & 0xFFFF_FFFF_FFFF_FFFF_FFFF_FFFF_FFFF != 0,
    }
}

impl NanBstr {
    /// Validity of the enclosed bytes; every reachable value satisfies it,
    /// so no invalid instance can exist.
    #[verifier::type_invariant]
    pub open spec fn wf(self) -> bool {
        valid_nan_bytes(self@)
    }

    /// The width this value's byte length encodes.
    pub open spec fn spec_width(self) -> NanWidth {
        spec_width_of_len(self@.len())
    }

    /// The value's bit pattern, widened to 128 bits.
    pub open spec fn spec_bits(self) -> u128 {
        be_u128(self@)
    }

    /// Construct from a big-endian byte slice of length 2, 4, 8 or 16,
    /// validating that the bit pattern encodes a NaN of the corresponding
    /// width. Any other length fails with `InvalidLength` (carrying the
    /// length); a well-sized buffer that does not encode a NaN — an infinity
    /// or a finite number — fails with `NotANan`.
    pub fn from_be_bytes(bytes: &[u8]) -> (r: Result<NanBstr, NanError>)
        ensures
            valid_nan_bytes(bytes@) ==> (r matches Ok(n) && n@ == bytes@),
            !valid_nan_len(bytes@.len()) ==> r == Err::<NanBstr, NanError>(
                NanError::InvalidLength(bytes@.len() as usize),
            ),
            valid_nan_len(bytes@.len()) && !valid_nan_bytes(bytes@) ==> r == Err::<
                NanBstr,
                NanError,
            >(NanError::NotANan),
    {
        match NanWidth::from_len(bytes.len()) {
            Err(e) => Err(e),
            Ok(w) => {
                if is_nan_bits(w, bytes) {
                    Ok(NanBstr { bytes: slice_to_vec(bytes) })
                } else {
                    Err(NanError::NotANan)
                }
            },
        }
    }

    /// Construct from a native-endian 16-bit pattern; succeeds iff the
    /// pattern is a binary16 NaN.
    pub fn from_binary16_bits(bits: u16) -> (r: Result<NanBstr, NanError>)
        ensures
            spec_is_nan(NanWidth::Binary16, bits as u128) ==> (r matches Ok(n) && n@
                == spec_be_bytes(bits as nat, 2) && n@.len() == 2 && n.spec_bits()
                == bits as u128),
            !spec_is_nan(NanWidth::Binary16, bits as u128) ==> r == Err::<NanBstr, NanError>(
                NanError::NotANan,
            ),
    {
        let v = u128_to_be_bytes(bits as u128, 2);
        proof {
            lemma2_to64();
            lemma_be_uint_of_be_bytes(bits as nat, 2);
        }
        NanBstr::from_be_bytes(v.as_slice())
    }

    /// Construct from a native-endian 32-bit pattern; succeeds iff the
    /// pattern is a binary32 NaN.
    pub fn from_binary32_bits(bits: u32) -> (r: Result<NanBstr, NanError>)
        ensures
            spec_is_nan(NanWidth::Binary32, bits as u128) ==> (r matches Ok(n) && n@
                == spec_be_bytes(bits as nat, 4) && n@.len() == 4 && n.spec_bits()
                == bits as u128),
            !spec_is_nan(NanWidth::Binary32, bits as u128) ==> r == Err::<NanBstr, NanError>(
                NanError::NotANan,
            ),
    {
        let v = u128_to_be_bytes(bits as u128, 4);
        proof {
            lemma2_to64();
            lemma_be_uint_of_be_bytes(bits as nat, 4);
        }
        NanBstr::from_be_bytes(v.as_slice())
    }

    /// Construct from a native-endian 64-bit pattern; succeeds iff the
    /// pattern is a binary64 NaN.
    pub fn from_binary64_bits(bits: u64) -> (r: Result<NanBstr, NanError>)
        ensures
            spec_is_nan(NanWidth::Binary64, bits as u128) ==> (r matches Ok(n) && n@
                == spec_be_bytes(bits as nat, 8) && n@.len() == 8 && n.spec_bits()
                == bits as u128),
            !spec_is_nan(NanWidth::Binary64, bits as u128) ==> r == Err::<NanBstr, NanError>(
                NanError::NotANan,
            ),
    {
        let v = u128_to_be_bytes(bits as u128, 8);
        proof {
            lemma2_to64();
            lemma_be_uint_of_be_bytes(bits as nat, 8);
        }
        NanBstr::from_be_bytes(v.as_slice())
    }

    /// Construct from a native-endian 128-bit pattern; succeeds iff the
    /// pattern is a binary128 NaN.
    pub fn from_binary128_bits(bits: u128) -> (r: Result<NanBstr, NanError>)
        ensures
            spec_is_nan(NanWidth::Binary128, bits) ==> (r matches Ok(n) && n@ == spec_be_bytes(
                bits as nat,
                16,
            ) && n@.len() == 16 && n.spec_bits() == bits),
            !spec_is_nan(NanWidth::Binary128, bits) ==> r == Err::<NanBstr, NanError>(
                NanError::NotANan,
            ),
    {
        let v = u128_to_be_bytes(bits, 16);
        proof {
            lemma_pow2_adds(64, 64);
            lemma2_to64();
            lemma_be_uint_of_be_bytes(bits as nat, 16);
        }
        NanBstr::from_be_bytes(v.as_slice())
    }

    /// Construct from two 64-bit words of a binary128 pattern, `high`
    /// occupying the most significant 64 bits.
    pub fn from_binary128_words(high: u64, low: u64) -> (r: Result<NanBstr, NanError>)
        ensures
            spec_is_nan(NanWidth::Binary128, spec_binary128_of_words(high, low)) ==> (r matches Ok(
                n,
            ) && n@ == spec_be_bytes(spec_binary128_of_words(high, low) as nat, 16) && n@.len()
                == 16 && n.spec_bits() == spec_binary128_of_words(high, low)),
            !spec_is_nan(NanWidth::Binary128, spec_binary128_of_words(high, low)) ==> r == Err::<
                NanBstr,
                NanError,
            >(NanError::NotANan),
    {
        let bits = ((high as u128) << 64u128) | (low as u128);
        NanBstr::from_binary128_bits(bits)
    }

    /// Returns the width (binary16/32/64/128) encoded by the enclosed
    /// bytes.
    pub fn width(&self) -> (w: NanWidth)
        ensures
            w == self.spec_width(),
            w.spec_len() == self@.len(),
    {
        proof {
            use_type_invariant(&*self);
        }
        match NanWidth::from_len(self.bytes.len()) {
            Ok(w) => w,
            Err(_) => unreached(),
        }
    }

    /// Returns the raw bytes in big-endian order.
    pub fn as_bytes(&self) -> (r: &[u8])
        ensures
            r@ == self@,
    {
        self.bytes.as_slice()
    }

    /// Returns the sign bit (true if set).
    pub fn sign(&self) -> (r: bool)
        ensures
            r == spec_sign(self.spec_width(), self.spec_bits()),
    {
        proof {
            use_type_invariant(&*self);
        }
        let bits = be_bytes_to_u128(self.bytes.as_slice());
        match self.width() {
            NanWidth::Binary16 => (bits >> 15u128) & 1 == 1,
            NanWidth::Binary32 => (bits >> 31u128) & 1 == 1,
            NanWidth::Binary64 => (bits >> 63u128) & 1 == 1,
            NanWidth::Binary128 => (bits >> 127u128) & 1 == 1,
        }
    }

    /// Returns true if the quiet/signaling indicator bit is set (quiet
    /// NaN).
    pub fn is_quiet(&self) -> (r: bool)
        ensures
            r == spec_quiet(self.spec_width(), self.spec_bits()),
    {
        proof {
            use_type_invariant(&*self);
        }
        let bits = be_bytes_to_u128(self.bytes.as_slice());
        match self.width() {
            NanWidth::Binary16 => (bits >> 9u128) & 1 == 1,
            NanWidth::Binary32 => (bits >> 22u128) & 1 == 1,
            NanWidth::Binary64 => (bits >> 51u128) & 1 == 1,
            NanWidth::Binary128 => (bits >> 111u128) & 1 == 1,
        }
    }

    /// Returns true if the NaN is signaling (quiet bit clear).
    pub fn is_signaling(&self) -> (r: bool)
        ensures
            r == !spec_quiet(self.spec_width(), self.spec_bits()),
    {
        !self.is_quiet()
    }

    /// Returns the full fraction field — quiet/signaling indicator included
    /// — widened to 128 bits.
    pub fn fraction_bits(&self) -> (r: u128)
        ensures
            r == spec_fraction(self.spec_width(), self.spec_bits()),
    {
        proof {
            use_type_invariant(&*self);
        }
        let bits = be_bytes_to_u128(self.bytes.as_slice());
        match self.width() {
            NanWidth::Binary16 => bits & 0x3FF,
            NanWidth::Binary32 => bits & 0x7F_FFFF,
            NanWidth::Binary64 => bits & 0xF_FFFF_FFFF_FFFF,
            NanWidth::Binary128 => bits & 0xFFFF_FFFF_FFFF_FFFF_FFFF_FFFF_FFFF,
        }
    }

    /// Returns the payload: the fraction field with the quiet/signaling
    /// indicator masked off.
    pub fn payload_bits(&self) -> (r: u128)
        ensures
            r == spec_payload(self.spec_width(), self.spec_bits()),
    {
        proof {
            use_type_invariant(&*self);
        }
        let bits = be_bytes_to_u128(self.bytes.as_slice());
        match self.width() {
            NanWidth::Binary16 => bits & 0x1FF,
            NanWidth::Binary32 => bits & 0x3F_FFFF,
            NanWidth::Binary64 => bits & 0x7_FFFF_FFFF_FFFF,
            NanWidth::Binary128 => bits & 0x7FFF_FFFF_FFFF_FFFF_FFFF_FFFF_FFFF,
        }
    }

    /// If the width is binary128, the full 128-bit pattern; `None` for any
    /// narrower width — a legitimate narrowing query, not an error.
    pub fn to_binary128_bits(&self) -> (r: Option<u128>)
        ensures
            self@.len() == 16 ==> r == Some(self.spec_bits()),
            self@.len() != 16 ==> r is None,
    {
        proof {
            use_type_invariant(&*self);
        }
        if self.bytes.len() == 16 {
            Some(be_bytes_to_u128(self.bytes.as_slice()))
        } else {
            None
        }
    }

    /// The stored pattern as a 32-bit word, for reinterpretation as a
    /// native 32-bit float. Fails with `InvalidLength` — a length-category
    /// error, not a validity one — unless the width is exactly binary32.
    pub fn to_binary32_bits(&self) -> (r: Result<u32, NanError>)
        ensures
            self@.len() == 4 ==> (r matches Ok(b) && b as u128 == self.spec_bits()),
            self@.len() != 4 ==> r == Err::<u32, NanError>(
                NanError::InvalidLength(self@.len() as usize),
            ),
    {
        proof {
            use_type_invariant(&*self);
        }
        if self.bytes.len() == 4 {
            let bits = be_bytes_to_u128(self.bytes.as_slice());
            proof {
                lemma_be_uint_bound(self@);
                lemma2_to64();
            }
            Ok(bits as u32)
        } else {
            Err(NanError::InvalidLength(self.bytes.len()))
        }
    }

    /// The stored pattern as a 64-bit word, for reinterpretation as a
    /// native 64-bit float. Fails with `InvalidLength` unless the width is
    /// exactly binary64.
    pub fn to_binary64_bits(&self) -> (r: Result<u64, NanError>)
        ensures
            self@.len() == 8 ==> (r matches Ok(b) && b as u128 == self.spec_bits()),
            self@.len() != 8 ==> r == Err::<u64, NanError>(
                NanError::InvalidLength(self@.len() as usize),
            ),
    {
        proof {
            use_type_invariant(&*self);
        }
        if self.bytes.len() == 8 {
            let bits = be_bytes_to_u128(self.bytes.as_slice());
            proof {
                lemma_be_uint_bound(self@);
                lemma2_to64();
            }
            Ok(bits as u64)
        } else {
            Err(NanError::InvalidLength(self.bytes.len()))
        }
    }
}

/// The 128-bit pattern composed of two 64-bit words, `high` occupying the
/// most significant 64 bits.
pub open spec fn spec_binary128_of_words(high: u64, low: u64) -> u128 {
    ((high as u128) << 64u128) | (low as u128)
}

/// An all-ones exponent with zero fraction is an infinity, not a NaN: no
/// buffer holding such a pattern is ever accepted, at any width.
pub proof fn lemma_infinity_is_not_nan(w: NanWidth, s: Seq<u8>)
    requires
        s.len() == w.spec_len(),
        spec_fraction(w, be_u128(s)) == 0,
    ensures
        !valid_nan_bytes(s),
{
    assert(spec_width_of_len(w.spec_len()) == w);
}

/// The payload is exactly the fraction field with the quiet/signaling bit
/// removed: a strict subset of the fraction bits. Quantitatively, the
/// fraction equals the payload plus the quiet bit's place value when the
/// quiet bit is set, and the payload always stays below that place value.
pub proof fn lemma_payload_excludes_quiet_bit(w: NanWidth, bits: u128)
    ensures
        spec_fraction(w, bits) == spec_payload(w, bits) + (if spec_quiet(w, bits) {
            spec_quiet_bit(w)
        } else {
            0
        }),
        spec_payload(w, bits) < spec_quiet_bit(w),
{
    match w {
        NanWidth::Binary16 => {
            assert((bits & 0x3FF) == (bits & 0x1FF) + (if (bits >> 9u128) & 1 == 1 {
                0x200u128
            } else {
                0
            }) && (bits & 0x1FF) < 0x200) by (bit_vector);
        },
        NanWidth::Binary32 => {
            assert((bits & 0x7F_FFFF) == (bits & 0x3F_FFFF) + (if (bits >> 22u128) & 1 == 1 {
                0x40_0000u128
            } else {
                0
            }) && (bits & 0x3F_FFFF) < 0x40_0000) by (bit_vector);
        },
        NanWidth::Binary64 => {
            assert((bits & 0xF_FFFF_FFFF_FFFF) == (bits & 0x7_FFFF_FFFF_FFFF) + (if (bits
                >> 51u128) & 1 == 1 {
                0x8_0000_0000_0000u128
            } else {
                0
            }) && (bits & 0x7_FFFF_FFFF_FFFF) < 0x8_0000_0000_0000) by (bit_vector);
        },
        NanWidth::Binary128 => {
            assert((bits & 0xFFFF_FFFF_FFFF_FFFF_FFFF_FFFF_FFFF) == (bits
                & 0x7FFF_FFFF_FFFF_FFFF_FFFF_FFFF_FFFF) + (if (bits >> 111u128) & 1 == 1 {
                0x8000_0000_0000_0000_0000_0000_0000u128
            } else {
                0
            }) && (bits & 0x7FFF_FFFF_FFFF_FFFF_FFFF_FFFF_FFFF)
                < 0x8000_0000_0000_0000_0000_0000_0000) by (bit_vector);
        },
    }
}

} // verus!
