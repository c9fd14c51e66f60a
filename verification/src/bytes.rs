use vstd::prelude::*;

use vstd::arithmetic::div_mod::lemma_fundamental_div_mod;
use vstd::arithmetic::power2::{lemma2_to64, lemma_pow2_adds, lemma_pow2_strictly_increases, pow2};

verus! {

/// The unsigned integer encoded by a big-endian byte sequence.
pub open spec fn be_uint(s: Seq<u8>) -> nat
    decreases s.len(),
{
    if s.len() == 0 {
        0
    } else {
        be_uint(s.drop_last()) * 256 + (s.last() as nat)
    }
}

/// The unsigned integer encoded by a big-endian byte sequence of at most 16
/// bytes, as a 128-bit word.
pub open spec fn be_u128(s: Seq<u8>) -> u128
    recommends
        s.len() <= 16,
{
    be_uint(s) as u128
}

/// The big-endian byte sequence of length `len` encoding `v` (mod 2^(8*len)).
pub open spec fn spec_be_bytes(v: nat, len: nat) -> Seq<u8>
    decreases len,
{
    if len == 0 {
        Seq::empty()
    } else {
        spec_be_bytes(v / 256, (len - 1) as nat).push((v % 256) as u8)
    }
}

/// A big-endian byte sequence of length `len` encodes a value below
/// 2^(8*len).
pub proof fn lemma_be_uint_bound(s: Seq<u8>)
    ensures
        be_uint(s) < pow2(8 * s.len()),
    decreases s.len(),
{
    if s.len() == 0 {
        lemma2_to64();
    } else {
        lemma_be_uint_bound(s.drop_last());
        lemma_pow2_adds(8 * (s.len() - 1) as nat, 8);
        lemma2_to64();
        assert(be_uint(s.drop_last()) * 256 + s.last() < pow2(8 * (s.len() - 1) as nat) * 256) by (
        nonlinear_arith)
            requires
                be_uint(s.drop_last()) < pow2(8 * (s.len() - 1) as nat),
                s.last() < 256,
        ;
    }
}

/// `spec_be_bytes` always produces exactly `len` bytes.
pub proof fn lemma_be_bytes_len(v: nat, len: nat)
    ensures
        spec_be_bytes(v, len).len() == len,
    decreases len,
{
    if len != 0 {
        lemma_be_bytes_len(v / 256, (len - 1) as nat);
    }
}

/// Round trip: rendering a value below 2^(8*len) as `len` big-endian bytes
/// and reading those bytes back yields the value unchanged.
pub proof fn lemma_be_uint_of_be_bytes(v: nat, len: nat)
    requires
        v < pow2(8 * len),
    ensures
        be_uint(spec_be_bytes(v, len)) == v,
    decreases len,
{
    if len == 0 {
        lemma2_to64();
    } else {
        lemma_pow2_adds(8 * (len - 1) as nat, 8);
        lemma2_to64();
        assert(v / 256 < pow2(8 * (len - 1) as nat)) by (nonlinear_arith)
            requires
                v < pow2(8 * (len - 1) as nat) * 256,
        ;
        lemma_be_uint_of_be_bytes(v / 256, (len - 1) as nat);
        let s = spec_be_bytes(v, len);
        lemma_be_bytes_len(v, len);
        assert(s.drop_last() =~= spec_be_bytes(v / 256, (len - 1) as nat));
        lemma_fundamental_div_mod(v as int, 256);
    }
}

/// Reads a big-endian byte buffer of at most 16 bytes as an unsigned
/// integer.
pub(crate) fn be_bytes_to_u128(bytes: &[u8]) -> (r: u128)
    requires
        bytes@.len() <= 16,
    ensures
        r as nat == be_uint(bytes@),
{
    let n = bytes.len();
    let mut acc: u128 = 0;
    let mut i: usize = 0;
    while i < n
        invariant
            i <= n,
            n == bytes@.len(),
            n <= 16,
            acc as nat == be_uint(bytes@.take(i as int)),
        decreases n - i,
    {
        proof {
            lemma_be_uint_bound(bytes@.take(i as int));
            if 8 * i < 120 {
                lemma_pow2_strictly_increases(8 * i as nat, 120);
            }
            lemma_pow2_adds(120, 8);
            lemma2_to64();
            assert(acc * 256 + 255 < pow2(128)) by (nonlinear_arith)
                requires
                    (acc as nat) < pow2(120),
                    pow2(128) == pow2(120) * 256,
            ;
            assert(pow2(128) == 0x100000000000000000000000000000000) by {
                lemma_pow2_adds(64, 64);
                lemma2_to64();
            };
            assert(bytes@.take(i + 1).drop_last() =~= bytes@.take(i as int));
        }
        acc = acc * 256 + bytes[i] as u128;
        i = i + 1;
    }
    proof {
        assert(bytes@.take(n as int) =~= bytes@);
    }
    acc
}

/// Renders the low `8 * len` bits of `bits` as `len` big-endian bytes.
pub(crate) fn u128_to_be_bytes(bits: u128, len: usize) -> (r: Vec<u8>)
    ensures
        r@ == spec_be_bytes(bits as nat, len as nat),
        r@.len() == len,
    decreases len,
{
    proof {
        lemma_be_bytes_len(bits as nat, len as nat);
    }
    if len == 0 {
        Vec::new()
    } else {
        let mut r = u128_to_be_bytes(bits / 256, len - 1);
        r.push((bits % 256) as u8);
        r
    }
}

} // verus!
