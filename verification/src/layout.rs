//! Adaptive geometry for the per-core usage grid: how many columns fit the
//! available width, how many rows the cores then need, and the per-column
//! width share.

use vstd::prelude::*;

verus! {

/// Narrowest acceptable column of the per-core grid, in terminal cells.
pub const MIN_COLUMN_WIDTH: u16 = 30;

/// Column count: as many minimum-width columns as fit, at least one, and
/// never more than there are cores to show.
pub open spec fn columns_spec(width: nat, threads: nat) -> nat {
    let by_width = if width / (MIN_COLUMN_WIDTH as nat) < 1 {
        1
    } else {
        width / (MIN_COLUMN_WIDTH as nat)
    };
    let cap = if threads < 1 {
        1
    } else {
        threads
    };
    if by_width <= cap {
        by_width
    } else {
        cap
    }
}

/// Row count: enough rows of `columns` cells to hold every core.
pub open spec fn rows_spec(threads: nat, columns: nat) -> nat
    recommends
        columns >= 1,
{
    (threads + columns - 1) as nat / columns
}

/// Equal percentage share of the width for each column, floored at one.
pub open spec fn column_percentage_spec(columns: nat) -> nat
    recommends
        columns >= 1,
{
    if 100nat / columns < 1 {
        1
    } else {
        100nat / columns
    }
}

/// Compute the grid's column count from the drawable width and core count.
pub fn grid_columns(width: u16, threads: usize) -> (c: usize)
    ensures
        c as nat == columns_spec(width as nat, threads as nat),
        1 <= c,
        threads >= 1 ==> c <= threads,
{
    let by_width: usize = (width / MIN_COLUMN_WIDTH) as usize;
    let by_width: usize = if by_width < 1 {
        1
    } else {
        by_width
    };
    let cap: usize = if threads < 1 {
        1
    } else {
        threads
    };
    if by_width <= cap {
        by_width
    } else {
        cap
    }
}

/// Compute the grid's row count.
pub fn grid_rows(threads: usize, columns: usize) -> (r: usize)
    requires
        columns >= 1,
    ensures
        r as nat == rows_spec(threads as nat, columns as nat),
{
    let q = threads / columns;
    let rem = threads % columns;
    let r = if rem != 0 {
        proof {
            vstd::arithmetic::div_mod::lemma_fundamental_div_mod(threads as int, columns as int);
            assert(q < threads) by (nonlinear_arith)
                requires
                    columns >= 1,
                    threads as int == columns as int * (q as int) + rem as int,
                    q == threads / columns,
                    rem == threads % columns,
                    1 <= rem,
                    rem < columns,
            ;
        }
        q + 1
    } else {
        q
    };
    proof {
        let t = threads as int;
        let c = columns as int;
        vstd::arithmetic::div_mod::lemma_fundamental_div_mod(t, c);
        vstd::arithmetic::div_mod::lemma_fundamental_div_mod(t + c - 1, c);
        assert(r as int == (t + c - 1) / c) by (nonlinear_arith)
            requires
                c >= 1,
                t >= 0,
                t == c * (t / c) + t % c,
                t + c - 1 == c * ((t + c - 1) / c) + (t + c - 1) % c,
                0 <= t % c < c,
                0 <= (t + c - 1) % c < c,
                r as int == if t % c != 0 {
                    t / c + 1
                } else {
                    t / c
                };
    }
    r
}

/// Compute the per-column percentage width.
pub fn column_percentage(columns: usize) -> (p: u16)
    requires
        columns >= 1,
    ensures
        p as nat == column_percentage_spec(columns as nat),
{
    let share = 100 / columns;
    if share < 1 {
        1
    } else {
        share as u16
    }
}

/// The grid geometry is sound for every width that fits at least one column
/// and every non-empty core list: at least one column, never more columns
/// than cores, and exactly enough rows — every core has a cell, while one
/// row fewer would leave some core out.
pub proof fn lemma_grid_geometry(width: nat, threads: nat)
    requires
        width >= MIN_COLUMN_WIDTH,
        threads >= 1,
    ensures
        1 <= columns_spec(width, threads),
        columns_spec(width, threads) <= threads,
        rows_spec(threads, columns_spec(width, threads)) * columns_spec(width, threads)
            >= threads,
        (rows_spec(threads, columns_spec(width, threads)) - 1) * columns_spec(width, threads)
            < threads,
{
    let c = columns_spec(width, threads);
    let r = rows_spec(threads, c);
    vstd::arithmetic::div_mod::lemma_fundamental_div_mod((threads + c - 1) as int, c as int);
    let t1 = (threads + c - 1) as int;
    let ci = c as int;
    assert(r * c >= threads && (r - 1) * c < threads) by (nonlinear_arith)
        requires
            ci >= 1,
            threads >= 1,
            r == (threads + c - 1) as nat / c,
            t1 == (threads + c - 1) as int,
            ci == c as int,
            t1 == ci * (t1 / ci) + t1 % ci,
            (0 <= t1 % ci && t1 % ci < ci),
    ;
}

} // verus!
