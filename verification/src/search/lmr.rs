//! Late move reductions. How far a late move is reduced follows from the
//! logarithms of the depth and of the move's place among the moves; the
//! search reads the reductions from a table that was worked out beforehand.

use vstd::prelude::*;

verus! {

/// The depths that the table has a row for.
pub const LMR_DEPTHS: usize = 64;

/// The places among the moves that a row has a reduction for.
pub const LMR_MOVES: usize = 256;

/// For each depth and each place among the moves the reduction of a quiet
/// move and that of a capture or promotion, before it is doubled for a side
/// that is not improving and held between 1 and the depth.
pub struct Reductions {
    pub quiet: Vec<Vec<u8>>,
    pub noisy: Vec<Vec<u8>>,
}

/// A reduction held between 1 and the depth, after it was doubled for a
/// side that is not improving.
pub open spec fn held_reduction(raw: u8, improving: bool, depth: u8) -> int {
    let doubled = if improving {
        raw as int
    } else {
        2 * raw as int
    };
    if doubled < 1 {
        1
    } else if doubled > depth {
        depth as int
    } else {
        doubled
    }
}

impl Reductions {
    /// Both tables have a row for each depth and in it a reduction for each
    /// place.
    pub open spec fn wf(&self) -> bool {
        &&& self.quiet.len() == LMR_DEPTHS
        &&& self.noisy.len() == LMR_DEPTHS
        &&& forall|d: int| 0 <= d < LMR_DEPTHS ==> (#[trigger] self.quiet[d]).len() == LMR_MOVES
        &&& forall|d: int| 0 <= d < LMR_DEPTHS ==> (#[trigger] self.noisy[d]).len() == LMR_MOVES
    }

    /// The reduction that the table holds for a move. A depth or a place
    /// beyond the table has that of the table's last row or column.
    pub open spec fn raw(&self, quiet: bool, depth: u8, place: usize) -> u8 {
        let d = if depth < LMR_DEPTHS {
            depth as int
        } else {
            LMR_DEPTHS - 1
        };
        let p = if place < LMR_MOVES {
            place as int
        } else {
            LMR_MOVES - 1
        };
        if quiet {
            self.quiet[d][p]
        } else {
            self.noisy[d][p]
        }
    }

    /// Whether both tables have their shape.
    pub fn is_valid(&self) -> (r: bool)
        ensures
            r == self.wf(),
    {
        if self.quiet.len() != LMR_DEPTHS || self.noisy.len() != LMR_DEPTHS {
            return false;
        }
        let mut d: usize = 0;
        while d < LMR_DEPTHS
            invariant
                d <= LMR_DEPTHS,
                self.quiet.len() == LMR_DEPTHS,
                self.noisy.len() == LMR_DEPTHS,
                forall|e: int| 0 <= e < d ==> (#[trigger] self.quiet[e]).len() == LMR_MOVES,
                forall|e: int| 0 <= e < d ==> (#[trigger] self.noisy[e]).len() == LMR_MOVES,
            decreases LMR_DEPTHS - d,
        {
            if self.quiet[d].len() != LMR_MOVES || self.noisy[d].len() != LMR_MOVES {
                return false;
            }
            d += 1;
        }
        true
    }

    /// Tables that reduce every move by the same amount.
    pub fn uniform(quiet: u8, noisy: u8) -> (r: Reductions)
        ensures
            r.wf(),
            forall|depth: u8, place: usize| #[trigger] r.raw(true, depth, place) == quiet,
            forall|depth: u8, place: usize| #[trigger] r.raw(false, depth, place) == noisy,
    {
        Reductions { quiet: Self::filled(quiet), noisy: Self::filled(noisy) }
    }

    fn filled(value: u8) -> (r: Vec<Vec<u8>>)
        ensures
            r.len() == LMR_DEPTHS,
            forall|d: int| 0 <= d < LMR_DEPTHS ==> (#[trigger] r[d]).len() == LMR_MOVES,
            forall|d: int, p: int|
                0 <= d < LMR_DEPTHS && 0 <= p < LMR_MOVES ==> #[trigger] r[d][p] == value,
    {
        let mut table: Vec<Vec<u8>> = Vec::new();
        let mut d: usize = 0;
        while d < LMR_DEPTHS
            invariant
                d <= LMR_DEPTHS,
                table.len() == d,
                forall|e: int| 0 <= e < d ==> (#[trigger] table[e]).len() == LMR_MOVES,
                forall|e: int, p: int|
                    0 <= e < d && 0 <= p < LMR_MOVES ==> #[trigger] table[e][p] == value,
            decreases LMR_DEPTHS - d,
        {
            let mut row: Vec<u8> = Vec::new();
            let mut p: usize = 0;
            while p < LMR_MOVES
                invariant
                    p <= LMR_MOVES,
                    row.len() == p,
                    forall|q: int| 0 <= q < p ==> #[trigger] row[q] == value,
                decreases LMR_MOVES - p,
            {
                row.push(value);
                p += 1;
            }
            table.push(row);
            d += 1;
        }
        table
    }

    /// The reduction of a late move: what the table holds for it, doubled
    /// for a side that is not improving, and held between 1 and the depth.
    pub fn reduction(&self, quiet: bool, depth: u8, place: usize, improving: bool) -> (r: u8)
        requires
            self.wf(),
            depth >= 1,
        ensures
            r == held_reduction(self.raw(quiet, depth, place), improving, depth),
            1 <= r <= depth,
    {
        let d: usize = if (depth as usize) < LMR_DEPTHS {
            depth as usize
        } else {
            LMR_DEPTHS - 1
        };
        let p: usize = if place < LMR_MOVES {
            place
        } else {
            LMR_MOVES - 1
        };
        let raw: u8 = if quiet {
            self.quiet[d][p]
        } else {
            self.noisy[d][p]
        };
        let doubled: u16 = if improving {
            raw as u16
        } else {
            2 * (raw as u16)
        };
        if doubled < 1 {
            1
        } else if doubled > depth as u16 {
            depth
        } else {
            doubled as u8
        }
    }
}

} // verus!
