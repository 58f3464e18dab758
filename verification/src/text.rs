//! Decimal rendering of unsigned integers, the shared base of every
//! human-readable number in the visual model.

use vstd::prelude::*;

verus! {

/// The character for a single decimal digit.
pub open spec fn digit_char(d: nat) -> char {
    if d == 0 {
        '0'
    } else if d == 1 {
        '1'
    } else if d == 2 {
        '2'
    } else if d == 3 {
        '3'
    } else if d == 4 {
        '4'
    } else if d == 5 {
        '5'
    } else if d == 6 {
        '6'
    } else if d == 7 {
        '7'
    } else if d == 8 {
        '8'
    } else {
        '9'
    }
}

/// The usual decimal rendering of `n`, most significant digit first,
/// with no leading zeros (except for `n == 0` itself).
pub open spec fn dec_str(n: nat) -> Seq<char>
    decreases n,
{
    if n < 10 {
        seq![digit_char(n)]
    } else {
        dec_str(n / 10).push(digit_char(n % 10))
    }
}

/// Single decimal digit as a string slice.
fn digit_str(d: u64) -> (r: &'static str)
    requires
        d < 10,
    ensures
        r@ =~= seq![digit_char(d as nat)],
{
    proof {
        reveal_strlit("0");
        reveal_strlit("1");
        reveal_strlit("2");
        reveal_strlit("3");
        reveal_strlit("4");
        reveal_strlit("5");
        reveal_strlit("6");
        reveal_strlit("7");
        reveal_strlit("8");
        reveal_strlit("9");
    }
    match d {
        0 => "0",
        1 => "1",
        2 => "2",
        3 => "3",
        4 => "4",
        5 => "5",
        6 => "6",
        7 => "7",
        8 => "8",
        _ => "9",
    }
}

/// Append one decimal digit to `out`.
pub fn push_digit(out: &mut String, d: u64)
    requires
        d < 10,
    ensures
        final(out)@ == old(out)@ + seq![digit_char(d as nat)],
{
    out.append(digit_str(d));
}

/// Append the decimal rendering of `n` to `out`.
pub fn push_dec(out: &mut String, n: u64)
    ensures
        final(out)@ == old(out)@ + dec_str(n as nat),
    decreases n,
{
    if n < 10 {
        out.append(digit_str(n));
    } else {
        push_dec(out, n / 10);
        out.append(digit_str(n % 10));
    }
}

/// The decimal rendering of `n` as an owned string.
pub fn dec_string(n: u64) -> (r: String)
    ensures
        r@ == dec_str(n as nat),
{
    let mut s = String::new();
    push_dec(&mut s, n);
    proof {
        assert(s@ =~= dec_str(n as nat));
    }
    s
}

/// Number of characters in the decimal rendering of `n`.
pub open spec fn dec_len(n: nat) -> nat
    decreases n,
{
    if n < 10 {
        1
    } else {
        dec_len(n / 10) + 1
    }
}

pub proof fn lemma_dec_str_len(n: nat)
    ensures
        dec_str(n).len() == dec_len(n),
    decreases n,
{
    if n >= 10 {
        lemma_dec_str_len(n / 10);
    }
}

/// A run of `n` copies of the character `c`.
pub open spec fn repeat_char(c: char, n: nat) -> Seq<char> {
    Seq::new(n, |i: int| c)
}

/// Append `n` copies of the one-character string `piece` to `out`.
pub fn push_repeat(out: &mut String, piece: &str, n: usize)
    requires
        piece@.len() == 1,
    ensures
        final(out)@ == old(out)@ + repeat_char(piece@[0], n as nat),
{
    let mut i: usize = 0;
    while i < n
        invariant
            i <= n,
            piece@.len() == 1,
            out@ == old(out)@ + repeat_char(piece@[0], i as nat),
        decreases n - i,
    {
        out.append(piece);
        proof {
            assert(out@ =~= old(out)@ + repeat_char(piece@[0], (i + 1) as nat));
        }
        i = i + 1;
    }
    proof {
        assert(out@ =~= old(out)@ + repeat_char(piece@[0], n as nat));
    }
}

/// The decimal rendering of `n`, left-padded with spaces to at least `w`
/// characters.
pub open spec fn padded_dec(n: nat, w: nat) -> Seq<char> {
    let d = dec_str(n);
    if d.len() >= w {
        d
    } else {
        repeat_char(' ', (w - d.len()) as nat) + d
    }
}

pub proof fn lemma_dec_len_small(n: nat)
    ensures
        n < 10 ==> dec_str(n).len() == 1,
        10 <= n < 100 ==> dec_str(n).len() == 2,
        100 <= n ==> dec_str(n).len() >= 3,
{
    lemma_dec_str_len(n);
    if n >= 10 {
        lemma_dec_str_len(n / 10);
        if n >= 100 {
            lemma_dec_str_len(n / 10 / 10);
        }
    }
}

/// Append the space-padded decimal rendering of `n` (width at most 3).
pub fn push_padded_dec(out: &mut String, n: u64, w: u64)
    requires
        w <= 3,
    ensures
        final(out)@ == old(out)@ + padded_dec(n as nat, w as nat),
{
    proof {
        lemma_dec_len_small(n as nat);
    }
    if n < 10 {
        if w == 3 {
            out.append("  ");
            proof {
                reveal_strlit("  ");
                assert(("  ")@ =~= repeat_char(' ', 2));
            }
        } else if w == 2 {
            out.append(" ");
            proof {
                reveal_strlit(" ");
                assert((" ")@ =~= repeat_char(' ', 1));
            }
        }
    } else if n < 100 {
        if w == 3 {
            out.append(" ");
            proof {
                reveal_strlit(" ");
                assert((" ")@ =~= repeat_char(' ', 1));
            }
        }
    }
    push_dec(out, n);
    proof {
        assert(out@ =~= old(out)@ + padded_dec(n as nat, w as nat));
    }
}

/// The decimal rendering of `n`, zero-padded to two characters.
pub open spec fn zero_pad2(n: nat) -> Seq<char> {
    if n < 10 {
        seq!['0'] + dec_str(n)
    } else {
        dec_str(n)
    }
}

/// Append the two-character zero-padded rendering of `n`.
pub fn push_zero_pad2(out: &mut String, n: u64)
    ensures
        final(out)@ == old(out)@ + zero_pad2(n as nat),
{
    if n < 10 {
        out.append("0");
        proof {
            reveal_strlit("0");
        }
    }
    push_dec(out, n);
    proof {
        assert(out@ =~= old(out)@ + zero_pad2(n as nat));
    }
}

} // verus!
