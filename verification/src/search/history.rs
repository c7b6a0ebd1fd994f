//! The history heuristic: credit for quiet moves that cut a search off.

use crate::chess::{Role, Square};
use crate::nnue::quot;
use vstd::arithmetic::div_mod::lemma_div_denominator;
use vstd::arithmetic::power2::{lemma_pow2_pos, lemma_pow2_unfold, pow2};
use vstd::prelude::*;

verus! {

/// For each role and target square the credit of the quiet moves of that
/// role to that square.
pub struct HistoryTable {
    pub table: Vec<Vec<i32>>,
}

/// A credit after `n` new searches: halved `n` times, each time rounded
/// toward zero.
pub open spec fn halved(credit: int, n: nat) -> int
    decreases n,
{
    if n == 0 {
        credit
    } else {
        quot(halved(credit, (n - 1) as nat), 2)
    }
}

/// After `n` new searches a credit is its first value divided by two to the
/// `n`, rounded toward zero; so it is no larger in size than that value
/// divided by two to the `n`.
pub proof fn history_decay(credit: int, n: nat)
    ensures
        halved(credit, n) == quot(credit, pow2(n) as int),
        credit >= 0 ==> 0 <= halved(credit, n) && halved(credit, n) * pow2(n) <= credit,
        credit <= 0 ==> 0 >= halved(credit, n) && halved(credit, n) * pow2(n) >= credit,
    decreases n,
{
    lemma_pow2_pos(n);
    let p = pow2(n) as int;
    if n == 0 {
        assert(pow2(0) == 1) by {
            lemma_pow2_unfold(1);
            vstd::arithmetic::power2::lemma2_to64();
        }
    } else {
        let m = (n - 1) as nat;
        history_decay(credit, m);
        lemma_pow2_pos(m);
        lemma_pow2_unfold(n);
        let q = pow2(m) as int;
        assert(p == 2 * q);
        if credit >= 0 {
            lemma_div_denominator(credit, q, 2);
            assert(q * 2 == p);
            assert((credit / q) / 2 == credit / p);
        } else {
            lemma_div_denominator(-credit, q, 2);
            assert(q * 2 == p);
            assert(((-credit) / q) / 2 == (-credit) / p);
        }
    }
    if credit >= 0 {
        vstd::arithmetic::div_mod::lemma_fundamental_div_mod(credit, p);
        vstd::arithmetic::div_mod::lemma_div_pos_is_pos(credit, p);
        assert(p * (credit / p) <= credit) by {
            vstd::arithmetic::div_mod::lemma_mod_bound(credit, p);
        }
        assert(halved(credit, n) * p == p * (credit / p)) by (nonlinear_arith)
            requires
                halved(credit, n) == credit / p,
        ;
    } else {
        let c = -credit;
        vstd::arithmetic::div_mod::lemma_fundamental_div_mod(c, p);
        vstd::arithmetic::div_mod::lemma_div_pos_is_pos(c, p);
        assert(p * (c / p) <= c) by {
            vstd::arithmetic::div_mod::lemma_mod_bound(c, p);
        }
        assert(halved(credit, n) * p == -(p * (c / p))) by (nonlinear_arith)
            requires
                halved(credit, n) == -(c / p),
        ;
    }
}

/// Credits with another credit for a role's moves to a square.
pub open spec fn credits_with(credits: Seq<Seq<i32>>, piece: Role, to: Square, credit: int) -> Seq<
    Seq<i32>,
> {
    let row = piece.spec_code() - 1;
    credits.update(row, credits[row].update(to.spec_index(), credit as i32))
}

/// Credits with every credit halved, rounded toward zero.
pub open spec fn credits_halved(credits: Seq<Seq<i32>>) -> Seq<Seq<i32>> {
    Seq::new(6, |r: int| Seq::new(64, |j: int| quot(credits[r][j] as int, 2) as i32))
}

impl HistoryTable {
    /// The table has a row of 64 credits for each of the six roles.
    pub open spec fn wf(&self) -> bool {
        &&& self.table.len() == 6
        &&& forall|r: int| 0 <= r < 6 ==> (#[trigger] self.table[r]).len() == 64
    }

    /// The credit of a role's moves to a square.
    pub open spec fn credit(&self, piece: Role, to: Square) -> i32 {
        self.table[piece.spec_code() - 1][to.spec_index()]
    }

    /// The credits, role by role and square by square.
    pub open spec fn credits(&self) -> Seq<Seq<i32>> {
        Seq::new(6, |r: int| self.table[r]@)
    }

    /// A table with no credit anywhere.
    pub fn new() -> (r: HistoryTable)
        ensures
            r.wf(),
            forall|piece: Role, to: Square| to.wf() ==> #[trigger] r.credit(piece, to) == 0,
    {
        let mut table: Vec<Vec<i32>> = Vec::new();
        let mut r: usize = 0;
        while r < 6
            invariant
                r <= 6,
                table.len() == r,
                forall|i: int| 0 <= i < r ==> (#[trigger] table[i]).len() == 64,
                forall|i: int, j: int| 0 <= i < r && 0 <= j < 64 ==> #[trigger] table[i][j] == 0,
            decreases 6 - r,
        {
            let mut row: Vec<i32> = Vec::new();
            let mut s: usize = 0;
            while s < 64
                invariant
                    s <= 64,
                    row.len() == s,
                    forall|j: int| 0 <= j < s ==> #[trigger] row[j] == 0,
                decreases 64 - s,
            {
                row.push(0);
                s += 1;
            }
            table.push(row);
            r += 1;
        }
        HistoryTable { table }
    }

    /// Adds to the credit of a role's moves to a square.
    pub fn update(&mut self, piece: Role, to: Square, value: i32)
        requires
            old(self).wf(),
            to.wf(),
            i32::MIN <= old(self).credit(piece, to) + value <= i32::MAX,
        ensures
            final(self).wf(),
            final(self).credit(piece, to) == old(self).credit(piece, to) + value,
            forall|p: Role, s: Square|
                s.wf() && (p != piece || s != to) ==>
                    #[trigger] final(self).credit(p, s) == old(self).credit(p, s),
            final(self).credits() == credits_with(
                old(self).credits(),
                piece,
                to,
                old(self).credit(piece, to) + value,
            ),
    {
        let row = (piece.code() - 1) as usize;
        let col = to.index();
        let credit = self.table[row][col];
        self.table[row][col] = credit + value;
        proof {
            assert(self.credits() =~= credits_with(
                old(self).credits(),
                piece,
                to,
                old(self).credit(piece, to) + value,
            ));
        }
    }

    /// The credit of a role's moves to a square.
    pub fn get(&self, piece: Role, to: Square) -> (r: i32)
        requires
            self.wf(),
            to.wf(),
        ensures
            r == self.credit(piece, to),
    {
        self.table[(piece.code() - 1) as usize][to.index()]
    }

    /// Halves every credit, rounding toward zero: a new search trusts old
    /// credit half as much.
    pub fn new_search(&mut self)
        requires
            old(self).wf(),
        ensures
            final(self).wf(),
            forall|p: Role, s: Square|
                s.wf() ==> #[trigger] final(self).credit(p, s) == quot(
                    old(self).credit(p, s) as int,
                    2,
                ),
            final(self).credits() == credits_halved(old(self).credits()),
    {
        let mut r: usize = 0;
        while r < 6
            invariant
                r <= 6,
                self.wf(),
                old(self).wf(),
                forall|i: int, j: int|
                    0 <= i < r && 0 <= j < 64 ==> #[trigger] self.table[i][j] == quot(
                        old(self).table[i][j] as int,
                        2,
                    ),
                forall|i: int, j: int|
                    r <= i < 6 && 0 <= j < 64 ==>
                        #[trigger] self.table[i][j] == old(self).table[i][j],
            decreases 6 - r,
        {
            let mut s: usize = 0;
            while s < 64
                invariant
                    r < 6,
                    s <= 64,
                    self.wf(),
                    old(self).wf(),
                    forall|i: int, j: int|
                        0 <= i < r && 0 <= j < 64 ==> #[trigger] self.table[i][j] == quot(
                            old(self).table[i][j] as int,
                            2,
                        ),
                    forall|j: int|
                        0 <= j < s ==> #[trigger] self.table[r as int][j] == quot(
                            old(self).table[r as int][j] as int,
                            2,
                        ),
                    forall|j: int|
                        s <= j < 64 ==>
                            #[trigger] self.table[r as int][j] == old(self).table[r as int][j],
                    forall|i: int, j: int|
                        r < i < 6 && 0 <= j < 64 ==>
                            #[trigger] self.table[i][j] == old(self).table[i][j],
                decreases 64 - s,
            {
                let credit = self.table[r][s];
                self.table[r][s] = credit / 2;
                s += 1;
            }
            r += 1;
        }
        proof {
            assert forall|r: int| 0 <= r < 6 implies #[trigger] self.credits()[r]
                == credits_halved(old(self).credits())[r] by {
                assert(self.table[r]@ =~= credits_halved(old(self).credits())[r]);
            }
            assert(self.credits() =~= credits_halved(old(self).credits()));
        }
    }
}

} // verus!
