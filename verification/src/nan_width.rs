use vstd::prelude::*;

use crate::error::NanError;

verus! {

/// Width of the underlying IEEE-754 interchange representation carried in
/// the byte string.
#[derive(Debug, Clone, Copy, PartialEq, Eq, Hash, Structural)]
pub enum NanWidth {
    /// 2-octet IEEE-754 binary16 (half precision).
    Binary16,
    /// 4-octet IEEE-754 binary32 (single precision).
    Binary32,
    /// 8-octet IEEE-754 binary64 (double precision).
    Binary64,
    /// 16-octet IEEE-754 binary128 (quadruple precision).
    Binary128,
}

/// True exactly for the four byte lengths of the IEEE-754 interchange
/// formats.
pub open spec fn valid_nan_len(len: nat) -> bool {
    len == 2 || len == 4 || len == 8 || len == 16
}

/// The width whose representation occupies `len` bytes.
pub open spec fn spec_width_of_len(len: nat) -> NanWidth
    recommends
        valid_nan_len(len),
{
    if len == 2 {
        NanWidth::Binary16
    } else if len == 4 {
        NanWidth::Binary32
    } else if len == 8 {
        NanWidth::Binary64
    } else {
        NanWidth::Binary128
    }
}

impl NanWidth {
    /// Byte length of this width's representation: 2, 4, 8 or 16.
    pub open spec fn spec_len(self) -> nat {
        match self {
            NanWidth::Binary16 => 2,
            NanWidth::Binary32 => 4,
            NanWidth::Binary64 => 8,
            NanWidth::Binary128 => 16,
        }
    }

    /// Number of exponent bits in this width's layout: 5, 8, 11 or 15.
    pub open spec fn spec_exp_bits(self) -> nat {
        match self {
            NanWidth::Binary16 => 5,
            NanWidth::Binary32 => 8,
            NanWidth::Binary64 => 11,
            NanWidth::Binary128 => 15,
        }
    }

    /// Number of fraction bits in this width's layout: 10, 23, 52 or 112.
    /// The most significant of them is the quiet/signaling indicator.
    pub open spec fn spec_frac_bits(self) -> nat {
        match self {
            NanWidth::Binary16 => 10,
            NanWidth::Binary32 => 23,
            NanWidth::Binary64 => 52,
            NanWidth::Binary128 => 112,
        }
    }

    /// The width encoded by a buffer of `len` bytes; any length other than
    /// 2, 4, 8 or 16 is rejected with `NanError::InvalidLength`, which carries
    /// the offending length.
    pub fn from_len(len: usize) -> (r: Result<NanWidth, NanError>)
        ensures
            valid_nan_len(len as nat) ==> r == Ok::<NanWidth, NanError>(
                spec_width_of_len(len as nat),
            ),
            !valid_nan_len(len as nat) ==> r == Err::<NanWidth, NanError>(NanError::InvalidLength(len)),
    {
        match len {
            2 => Ok(NanWidth::Binary16),
            4 => Ok(NanWidth::Binary32),
            8 => Ok(NanWidth::Binary64),
            16 => Ok(NanWidth::Binary128),
            _ => Err(NanError::InvalidLength(len)),
        }
    }

    /// Byte length of this width's representation; the inverse of
    /// `from_len`, total over all four widths.
    pub fn len(self) -> (r: usize)
        ensures
            r as nat == self.spec_len(),
    {
        match self {
            NanWidth::Binary16 => 2,
            NanWidth::Binary32 => 4,
            NanWidth::Binary64 => 8,
            NanWidth::Binary128 => 16,
        }
    }
}

} // verus!
