//! Byte-size formatting: pick the largest unit in {B, KB, MB, GB, TB} whose
//! scaled value stays below 1024, and render with one decimal place for every
//! unit above bytes.

use vstd::prelude::*;

use crate::text::{dec_str, dec_string, digit_char, push_digit};

verus! {

/// Rounding to the nearest integer, ties to even, of the quotient `a / b`.
pub open spec fn round_half_even(a: nat, b: nat) -> nat
    recommends
        b > 0,
{
    let q = a / b;
    let r = a % b;
    if 2 * r < b {
        q
    } else if 2 * r > b {
        q + 1
    } else if q % 2 == 0 {
        q
    } else {
        q + 1
    }
}

/// Index of the display unit for a byte count: 0 = B, 1 = KB, 2 = MB,
/// 3 = GB, 4 = TB (capped at TB however large the count).
pub open spec fn byte_unit(bytes: nat) -> nat {
    if bytes < 1024 {
        0
    } else if bytes < 1048576 {
        1
    } else if bytes < 1073741824 {
        2
    } else if bytes < 1099511627776 {
        3
    } else {
        4
    }
}

/// How many bytes one step of unit `u` stands for.
pub open spec fn unit_divisor(u: nat) -> nat {
    if u == 0 {
        1
    } else if u == 1 {
        1024
    } else if u == 2 {
        1048576
    } else if u == 3 {
        1073741824
    } else {
        1099511627776
    }
}

/// The suffix printed after the scaled value.
pub open spec fn unit_suffix(u: nat) -> Seq<char> {
    if u == 0 {
        seq![' ', 'B']
    } else if u == 1 {
        seq![' ', 'K', 'B']
    } else if u == 2 {
        seq![' ', 'M', 'B']
    } else if u == 3 {
        seq![' ', 'G', 'B']
    } else {
        seq![' ', 'T', 'B']
    }
}

/// The full rendering of a byte count: `"512 B"`, `"1.0 KB"`, `"1.5 KB"`, ...
/// Bytes are printed whole; larger units with exactly one decimal digit,
/// rounded to nearest with ties to even.
pub open spec fn format_bytes_spec(bytes: nat) -> Seq<char> {
    let u = byte_unit(bytes);
    if u == 0 {
        dec_str(bytes) + unit_suffix(0)
    } else {
        let tenths = round_half_even(bytes * 10, unit_divisor(u));
        dec_str(tenths / 10) + seq!['.', digit_char(tenths % 10)] + unit_suffix(u)
    }
}

/// A KiB-denominated figure converted to bytes (saturating at `u64::MAX`)
/// before the byte rendering is applied.
pub open spec fn kib_to_bytes(kib: nat) -> nat {
    if kib * 1024 > 0xffff_ffff_ffff_ffff {
        0xffff_ffff_ffff_ffff as nat
    } else {
        kib * 1024
    }
}

/// Scaled value of `bytes` in unit `u`, in tenths, rounded half to even.
fn scaled_tenths(bytes: u64, divisor: u64) -> (t: u64)
    requires
        1024 <= divisor,
    ensures
        t as nat == round_half_even(bytes as nat * 10, divisor as nat),
{
    let a: u128 = (bytes as u128) * 10;
    let b: u128 = divisor as u128;
    let q: u128 = a / b;
    let r: u128 = a % b;
    proof {
        assert(a / b <= a / 1024) by {
            vstd::arithmetic::div_mod::lemma_div_is_ordered_by_denominator(
                a as int,
                1024,
                b as int,
            );
        }
        assert(a / 1024 < 0xffff_ffff_ffff_ffff) by {
            assert(a <= 0xffff_ffff_ffff_ffff * 10);
            vstd::arithmetic::div_mod::lemma_div_is_ordered(
                a as int,
                0xffff_ffff_ffff_ffff as int * 10,
                1024,
            );
        }
    }
    if 2 * r < b {
        q as u64
    } else if 2 * r > b {
        (q + 1) as u64
    } else if q % 2 == 0 {
        q as u64
    } else {
        (q + 1) as u64
    }
}

/// Render a byte count as its largest fitting unit.
pub fn format_bytes(bytes: u64) -> (r: String)
    ensures
        r@ == format_bytes_spec(bytes as nat),
{
    if bytes < 1024 {
        let mut s = dec_string(bytes);
        s.append(" B");
        proof {
            reveal_strlit(" B");
            assert(s@ =~= format_bytes_spec(bytes as nat));
        }
        s
    } else {
        let divisor: u64 = if bytes < 1048576 {
            1024
        } else if bytes < 1073741824 {
            1048576
        } else if bytes < 1099511627776 {
            1073741824
        } else {
            1099511627776
        };
        let suffix: &'static str = if bytes < 1048576 {
            " KB"
        } else if bytes < 1073741824 {
            " MB"
        } else if bytes < 1099511627776 {
            " GB"
        } else {
            " TB"
        };
        let tenths = scaled_tenths(bytes, divisor);
        let mut s = dec_string(tenths / 10);
        s.append(".");
        push_digit(&mut s, tenths % 10);
        s.append(suffix);
        proof {
            reveal_strlit(".");
            reveal_strlit(" KB");
            reveal_strlit(" MB");
            reveal_strlit(" GB");
            reveal_strlit(" TB");
            assert(s@ =~= format_bytes_spec(bytes as nat));
        }
        s
    }
}

/// Render a figure given in KiB: convert to bytes (saturating), then format.
pub fn format_bytes_from_kib(kib: u64) -> (r: String)
    ensures
        r@ == format_bytes_spec(kib_to_bytes(kib as nat)),
{
    let bytes: u64 = if kib > 0xffff_ffff_ffff_ffff / 1024 {
        u64::MAX
    } else {
        kib * 1024
    };
    proof {
        assert(bytes as nat == kib_to_bytes(kib as nat));
    }
    format_bytes(bytes)
}

} // verus!
