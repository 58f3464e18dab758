//! Usage severity bands and fixed-width bar rendering.
//!
//! Usage values are carried in tenths of a percent, so `400` stands for
//! `40.0%`. This keeps the sub-percent band boundaries (e.g. `39.9%` vs
//! `40.0%`) representable without floating point.

use vstd::prelude::*;

use crate::text::{digit_char, padded_dec, push_digit, push_padded_dec, push_repeat, repeat_char};

verus! {

/// Severity classification of a usage percentage, ordered from calm to hot.
/// Bands are keyed on fixed breakpoints: below 40% nominal, below 75%
/// elevated, below 90% high, everything at or above 90% (clamped or not)
/// critical.
#[derive(Clone, Copy, Debug, PartialEq, Eq, Structural)]
pub enum Band {
    Nominal,
    Elevated,
    High,
    Critical,
}

/// Band of a usage value given in tenths of a percent.
pub open spec fn band_of(tenths: nat) -> Band {
    if tenths < 400 {
        Band::Nominal
    } else if tenths < 750 {
        Band::Elevated
    } else if tenths < 900 {
        Band::High
    } else {
        Band::Critical
    }
}

/// Classify a usage value (tenths of a percent) into its severity band.
pub fn usage_band(tenths: u32) -> (b: Band)
    ensures
        b == band_of(tenths as nat),
{
    if tenths < 400 {
        Band::Nominal
    } else if tenths < 750 {
        Band::Elevated
    } else if tenths < 900 {
        Band::High
    } else {
        Band::Critical
    }
}

/// Number of filled cells in a 20-cell bar for a usage value in tenths of a
/// percent: the nearest integer to `tenths / 50`, halves rounding up.
pub open spec fn filled_cells(tenths: nat) -> nat {
    (tenths + 25) / 50
}

/// Number of empty cells: whatever of the 20 cells is not filled.
pub open spec fn empty_cells(tenths: nat) -> nat {
    if filled_cells(tenths) >= 20 {
        0
    } else {
        (20 - filled_cells(tenths)) as nat
    }
}

/// The bar string: `[`, the filled cells, the empty cells, `]`.
pub open spec fn bar_spec(tenths: nat) -> Seq<char> {
    seq!['['] + repeat_char('█', filled_cells(tenths)) + repeat_char('-', empty_cells(tenths))
        + seq![']']
}

/// For every in-range usage the bar is exactly 20 cells, filled plus empty.
pub proof fn lemma_bar_cells(tenths: nat)
    requires
        tenths <= 1000,
    ensures
        filled_cells(tenths) <= 20,
        filled_cells(tenths) + empty_cells(tenths) == 20,
        bar_spec(tenths).len() == 22,
{
}

/// Render the 20-cell usage bar for a value in tenths of a percent
/// (callers clamp to the 0–100% range first).
pub fn make_bar_no_pct(tenths: u32) -> (r: String)
    requires
        tenths <= 1000,
    ensures
        r@ == bar_spec(tenths as nat),
{
    proof {
        lemma_bar_cells(tenths as nat);
        reveal_strlit("[");
        reveal_strlit("█");
        reveal_strlit("-");
        reveal_strlit("]");
    }
    let filled: usize = ((tenths + 25) / 50) as usize;
    let empty: usize = 20 - filled;
    let mut s = String::new();
    s.append("[");
    push_repeat(&mut s, "█", filled);
    push_repeat(&mut s, "-", empty);
    s.append("]");
    proof {
        assert(s@ =~= bar_spec(tenths as nat));
    }
    s
}

/// A percentage in tenths rendered as the usual gauge label: the value with
/// one decimal place, left-padded to five characters, then `%` — e.g.
/// `" 42.7%"` without its leading quote, or `"100.0%"`.
pub open spec fn percent_label_spec(tenths: nat) -> Seq<char> {
    padded_dec(tenths / 10, 3) + seq!['.', digit_char(tenths % 10), '%']
}

/// Render a usage value in tenths of a percent with one decimal place,
/// width five, and a trailing percent sign.
pub fn percent_label(tenths: u32) -> (r: String)
    ensures
        r@ == percent_label_spec(tenths as nat),
{
    let mut s = String::new();
    push_padded_dec(&mut s, (tenths / 10) as u64, 3);
    s.append(".");
    push_digit(&mut s, (tenths % 10) as u64);
    s.append("%");
    proof {
        reveal_strlit(".");
        reveal_strlit("%");
        assert(s@ =~= percent_label_spec(tenths as nat));
    }
    s
}

/// A whole percentage rendered at width three with a trailing percent sign,
/// e.g. `"  7%"` without its leading quote.
pub open spec fn percent3_spec(pct: nat) -> Seq<char> {
    padded_dec(pct, 3) + seq!['%']
}

/// Render a whole percentage, width three, trailing percent sign.
pub fn percent3_label(pct: u32) -> (r: String)
    ensures
        r@ == percent3_spec(pct as nat),
{
    let mut s = String::new();
    push_padded_dec(&mut s, pct as u64, 3);
    s.append("%");
    proof {
        reveal_strlit("%");
        assert(s@ =~= percent3_spec(pct as nat));
    }
    s
}

} // verus!
