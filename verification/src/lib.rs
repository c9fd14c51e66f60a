//! Lossless transport of IEEE-754 NaN bit patterns as tagged CBOR byte
//! strings.
//!
//! A [`NanBstr`] owns the exact big-endian bit pattern of an IEEE-754 NaN of
//! one of the four interchange widths (16, 32, 64 or 128 bits). Validity —
//! exponent field all ones, fraction field nonzero — is enforced on every
//! construction path, so no invalid instance can exist. The value travels on
//! the wire as a byte string tagged with CBOR tag 102, and decoding
//! re-validates the untrusted bytes.
//!
//! No canonicalization is performed: sign, quiet/signaling state and payload
//! are kept exactly as supplied, and equality, ordering and hashing are
//! defined over the raw bytes.

mod bytes;
mod cbor;
mod error;
mod fmt;
mod nan_bstr;
mod nan_width;

pub use bytes::{be_u128, be_uint, lemma_be_uint_bound, lemma_be_uint_of_be_bytes, spec_be_bytes};
pub use cbor::{cbor_byte_string, cbor_tagged_byte_string, TAG_NAN_BSTR};
pub use error::NanError;
pub use fmt::{spec_hex, spec_hex_digit, spec_width_label};
pub use nan_bstr::{
    lemma_infinity_is_not_nan, lemma_payload_excludes_quiet_bit, spec_binary128_of_words,
    spec_exp_all_ones, spec_fraction, spec_is_nan, spec_payload, spec_quiet, spec_quiet_bit,
    spec_sign, valid_nan_bytes, NanBstr,
};
pub use nan_width::{spec_width_of_len, valid_nan_len, NanWidth};
