//! Board cells, signs, and the evaluation of a finished or ongoing board.
//!
//! A cell is resolved when a bid contest assigns it a `Sign`; the two bids
//! that decided it are recorded in the cell. Evaluation checks eight fixed
//! lines in a fixed priority order (rows, then columns, then diagonals), and
//! falls back to a majority rule: the first sign to reach five resolved
//! cells wins, five being the earliest guaranteed majority of nine.

use vstd::prelude::*;

verus! {

/// The mark a resolved cell carries: `X` for the player, `O` for the bot.
#[derive(Clone, Copy, PartialEq, Eq, Structural, Debug)]
pub enum Sign {
    X,
    O,
}

/// One board cell: the two bids that contested it, and its mark once the
/// contest has resolved it. Both bids stay zero until then.
#[derive(Clone, Copy, PartialEq, Eq, Debug)]
pub struct Grid {
    pub my_bid: u8,
    pub op_bid: u8,
    pub flag: Option<Sign>,
}

impl Default for Grid {
    /// An unresolved cell with no bids recorded.
    fn default() -> (g: Grid)
        ensures
            g.my_bid == 0,
            g.op_bid == 0,
            g.flag is None,
    {
        Grid { my_bid: 0, op_bid: 0, flag: None }
    }
}

/// The cells of the `k`-th winning line: three rows, three columns, then
/// the two diagonals, in the priority order evaluation uses.
pub open spec fn win_pattern(k: int) -> (int, int, int) {
    if k == 0 {
        (0, 1, 2)
    } else if k == 1 {
        (3, 4, 5)
    } else if k == 2 {
        (6, 7, 8)
    } else if k == 3 {
        (0, 3, 6)
    } else if k == 4 {
        (1, 4, 7)
    } else if k == 5 {
        (2, 5, 8)
    } else if k == 6 {
        (0, 4, 8)
    } else {
        (2, 4, 6)
    }
}

/// Three cells are a winning line when all three are resolved with the
/// same sign.
pub open spec fn trio_complete(b: Seq<Grid>, first: int, second: int, third: int) -> bool {
    &&& b[first].flag is Some
    &&& b[first].flag == b[second].flag
    &&& b[first].flag == b[third].flag
}

/// The sign of the first winning line with index at least `k`, in pattern
/// priority order; `None` when no line from `k` on is winning.
pub open spec fn line_winner_from(b: Seq<Grid>, k: int) -> Option<Sign>
    decreases 8 - k,
{
    if k >= 8 {
        None
    } else {
        let (first, second, third) = win_pattern(k);
        if trio_complete(b, first, second, third) {
            b[first].flag
        } else {
            line_winner_from(b, k + 1)
        }
    }
}

/// How many of the first `n` cells are resolved with sign `s`.
pub open spec fn count_sign_upto(b: Seq<Grid>, s: Sign, n: int) -> int
    decreases n,
{
    if n <= 0 {
        0
    } else {
        count_sign_upto(b, s, n - 1) + if b[n - 1].flag == Some(s) {
            1int
        } else {
            0int
        }
    }
}

/// How many board cells are resolved with sign `s`.
pub open spec fn count_sign(b: Seq<Grid>, s: Sign) -> int {
    count_sign_upto(b, s, 9)
}

/// The player's bids recorded in the first `n` cells, summed.
pub open spec fn my_bid_sum_upto(b: Seq<Grid>, n: int) -> int
    decreases n,
{
    if n <= 0 {
        0
    } else {
        my_bid_sum_upto(b, n - 1) + b[n - 1].my_bid
    }
}

/// The opponent's bids recorded in the first `n` cells, summed.
pub open spec fn op_bid_sum_upto(b: Seq<Grid>, n: int) -> int
    decreases n,
{
    if n <= 0 {
        0
    } else {
        op_bid_sum_upto(b, n - 1) + b[n - 1].op_bid
    }
}

/// The player's bids wagered so far, over the whole board.
pub open spec fn my_bid_sum(b: Seq<Grid>) -> int {
    my_bid_sum_upto(b, 9)
}

/// The opponent's bids wagered so far, over the whole board.
pub open spec fn op_bid_sum(b: Seq<Grid>) -> int {
    op_bid_sum_upto(b, 9)
}

/// The terminal outcome a board carries, if any: the sign of the first
/// winning line, or else the sign that has reached five resolved cells.
pub open spec fn board_outcome(b: Seq<Grid>) -> Option<Sign> {
    match line_winner_from(b, 0) {
        Some(s) => Some(s),
        None => if count_sign(b, Sign::X) == 5 {
            Some(Sign::X)
        } else if count_sign(b, Sign::O) == 5 {
            Some(Sign::O)
        } else {
            None
        },
    }
}

/// Writing one cell shifts a sign count by that cell's contribution alone.
pub proof fn lemma_count_sign_update(b: Seq<Grid>, s: Sign, t: int, cell: Grid, n: int)
    requires
        0 <= t < b.len(),
        0 <= n <= b.len(),
    ensures
        count_sign_upto(b.update(t, cell), s, n) == count_sign_upto(b, s, n) + if t < n {
            (if cell.flag == Some(s) {
                1int
            } else {
                0int
            }) - (if b[t].flag == Some(s) {
                1int
            } else {
                0int
            })
        } else {
            0int
        },
    decreases n,
{
    if n > 0 {
        lemma_count_sign_update(b, s, t, cell, n - 1);
    }
}

/// Writing one cell shifts the player's bid sum by that cell alone.
pub proof fn lemma_my_bid_sum_update(b: Seq<Grid>, t: int, cell: Grid, n: int)
    requires
        0 <= t < b.len(),
        0 <= n <= b.len(),
    ensures
        my_bid_sum_upto(b.update(t, cell), n) == my_bid_sum_upto(b, n) + if t < n {
            cell.my_bid - b[t].my_bid
        } else {
            0int
        },
    decreases n,
{
    if n > 0 {
        lemma_my_bid_sum_update(b, t, cell, n - 1);
    }
}

/// Writing one cell shifts the opponent's bid sum by that cell alone.
pub proof fn lemma_op_bid_sum_update(b: Seq<Grid>, t: int, cell: Grid, n: int)
    requires
        0 <= t < b.len(),
        0 <= n <= b.len(),
    ensures
        op_bid_sum_upto(b.update(t, cell), n) == op_bid_sum_upto(b, n) + if t < n {
            cell.op_bid - b[t].op_bid
        } else {
            0int
        },
    decreases n,
{
    if n > 0 {
        lemma_op_bid_sum_update(b, t, cell, n - 1);
    }
}

/// A board of blank cells has zero sign counts and zero wagered bids.
pub proof fn lemma_blank_board(b: Seq<Grid>, n: int)
    requires
        0 <= n,
        forall|j: int|
            0 <= j < n ==> (#[trigger] b[j]).flag is None && b[j].my_bid == 0 && b[j].op_bid == 0,
    ensures
        count_sign_upto(b, Sign::X, n) == 0,
        count_sign_upto(b, Sign::O, n) == 0,
        my_bid_sum_upto(b, n) == 0,
        op_bid_sum_upto(b, n) == 0,
    decreases n,
{
    if n > 0 {
        lemma_blank_board(b, n - 1);
    }
}

/// Sign counts never exceed the number of cells counted.
pub proof fn lemma_count_sign_bound(b: Seq<Grid>, s: Sign, n: int)
    requires
        0 <= n,
    ensures
        0 <= count_sign_upto(b, s, n) <= n,
    decreases n,
{
    if n > 0 {
        lemma_count_sign_bound(b, s, n - 1);
    }
}

} // verus!
