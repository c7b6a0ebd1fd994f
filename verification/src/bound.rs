//! How a stored score bounds the true score of a position.

use vstd::prelude::*;

verus! {

/// The kind of a score in the transposition table.
#[derive(Clone, Copy, Debug, PartialEq, Eq, Structural)]
pub enum Bound {
    /// The score is the position's score.
    Exact,
    /// The search was cut off: the position's score is at least the score.
    Beta,
    /// No move raised alpha: the position's score is at most the score.
    Alpha,
}

/// A score at or below the alpha the search started with is an upper bound,
/// one at or above beta a lower bound, any other is exact.
pub open spec fn spec_classify(score: int, start_alpha: int, beta: int) -> Bound {
    if score <= start_alpha {
        Bound::Alpha
    } else if score >= beta {
        Bound::Beta
    } else {
        Bound::Exact
    }
}

impl Bound {
    /// The kind of the score that a node's search ended with.
    pub fn classify(score: i32, start_alpha: i32, beta: i32) -> (r: Bound)
        ensures
            r == spec_classify(score as int, start_alpha as int, beta as int),
    {
        if score <= start_alpha {
            Bound::Alpha
        } else if score >= beta {
            Bound::Beta
        } else {
            Bound::Exact
        }
    }

    /// Whether a stored score of this kind settles a search with the window
    /// from `alpha` to `beta`: an exact score always, an upper bound when it
    /// is at most alpha, a lower bound when it is at least beta.
    pub open spec fn spec_confirms(self, score: int, alpha: int, beta: int) -> bool {
        match self {
            Bound::Exact => true,
            Bound::Alpha => score <= alpha,
            Bound::Beta => score >= beta,
        }
    }

    pub fn confirms(self, score: i32, alpha: i32, beta: i32) -> (r: bool)
        ensures
            r == self.spec_confirms(score as int, alpha as int, beta as int),
    {
        match self {
            Bound::Exact => true,
            Bound::Alpha => score <= alpha,
            Bound::Beta => score >= beta,
        }
    }
}

} // verus!
