use vstd::prelude::*;

use vstd::string::{StrSliceExecFns, StringExecFns};

use crate::nan_bstr::{spec_fraction, spec_payload, spec_quiet, spec_sign, NanBstr};
use crate::nan_width::NanWidth;

verus! {

/// The lowercase hexadecimal digit for `d`.
pub open spec fn spec_hex_digit(d: u8) -> char
    recommends
        d < 16,
{
    seq!['0', '1', '2', '3', '4', '5', '6', '7', '8', '9', 'a', 'b', 'c', 'd', 'e', 'f'][d as int]
}

/// The lowercase hexadecimal rendering of `n`, without leading zeros
/// (a single `0` for zero).
pub open spec fn spec_hex(n: nat) -> Seq<char>
    decreases n,
{
    if n < 16 {
        seq![spec_hex_digit(n as u8)]
    } else {
        spec_hex(n / 16) + seq![spec_hex_digit((n % 16) as u8)]
    }
}

/// The decimal label of a width's bit count.
pub open spec fn spec_width_label(w: NanWidth) -> Seq<char> {
    match w {
        NanWidth::Binary16 => "16"@,
        NanWidth::Binary32 => "32"@,
        NanWidth::Binary64 => "64"@,
        NanWidth::Binary128 => "128"@,
    }
}

fn hex_digit_str(d: u8) -> (s: &'static str)
    requires
        d < 16,
    ensures
        s@ == seq![spec_hex_digit(d)],
{
    proof {
        reveal_strlit("0");
        reveal_strlit("1");
        reveal_strlit("2");
        reveal_strlit("3");
        reveal_strlit("4");
        reveal_strlit("5");
        reveal_strlit("6");
        reveal_strlit("7");
        reveal_strlit("8");
        reveal_strlit("9");
        reveal_strlit("a");
        reveal_strlit("b");
        reveal_strlit("c");
        reveal_strlit("d");
        reveal_strlit("e");
        reveal_strlit("f");
    }
    let s = match d {
        0 => "0",
        1 => "1",
        2 => "2",
        3 => "3",
        4 => "4",
        5 => "5",
        6 => "6",
        7 => "7",
        8 => "8",
        9 => "9",
        10 => "a",
        11 => "b",
        12 => "c",
        13 => "d",
        14 => "e",
        _ => "f",
    };
    proof {
        assert(s@ =~= seq![spec_hex_digit(d)]);
    }
    s
}

/// Renders `n` in lowercase hexadecimal without leading zeros.
fn hex_string(n: u128) -> (s: String)
    ensures
        s@ == spec_hex(n as nat),
    decreases n,
{
    if n < 16 {
        String::from_str(hex_digit_str(n as u8))
    } else {
        let mut s = hex_string(n / 16);
        s.append(hex_digit_str((n % 16) as u8));
        s
    }
}

impl NanBstr {
    /// The deterministic rendering produced by `to_string`: width in bits,
    /// sign glyph, quiet/signaling label, fraction and payload in
    /// hexadecimal.
    pub open spec fn spec_description(self) -> Seq<char> {
        "NaN["@ + spec_width_label(self.spec_width()) + "]: "@ + (if spec_sign(
            self.spec_width(),
            self.spec_bits(),
        ) {
            "-"@
        } else {
            "+"@
        }) + " "@ + (if spec_quiet(self.spec_width(), self.spec_bits()) {
            "quiet"@
        } else {
            "signaling"@
        }) + " frac=0x"@ + spec_hex(spec_fraction(self.spec_width(), self.spec_bits()) as nat)
            + " payload=0x"@ + spec_hex(spec_payload(self.spec_width(), self.spec_bits()) as nat)
    }

    /// Deterministic human-readable rendering of width, sign,
    /// quiet/signaling class, fraction and payload. For diagnostics and
    /// logging only; it has no bearing on equality and is not a canonical
    /// serialization.
    pub fn to_string(&self) -> (s: String)
        ensures
            s@ == self.spec_description(),
    {
        let mut s = String::from_str("NaN[");
        let label = match self.width() {
            NanWidth::Binary16 => "16",
            NanWidth::Binary32 => "32",
            NanWidth::Binary64 => "64",
            NanWidth::Binary128 => "128",
        };
        s.append(label);
        s.append("]: ");
        s.append(if self.sign() { "-" } else { "+" });
        s.append(" ");
        s.append(if self.is_quiet() { "quiet" } else { "signaling" });
        s.append(" frac=0x");
        let frac = hex_string(self.fraction_bits());
        s.append(frac.as_str());
        s.append(" payload=0x");
        let payload = hex_string(self.payload_bits());
        s.append(payload.as_str());
        proof {
            assert(s@ =~= self.spec_description());
        }
        s
    }
}

} // verus!
