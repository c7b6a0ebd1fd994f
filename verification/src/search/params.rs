//! The limits that a `go` command sets for a search.

use vstd::prelude::*;

verus! {

/// The limits of a search.
pub struct SearchParams {
    /// The deepest iteration.
    pub depth: u8,
    /// The time for this move, in milliseconds.
    pub move_time: u128,
    /// The time White has left, in milliseconds.
    pub w_time: u128,
    /// The time Black has left, in milliseconds.
    pub b_time: u128,
}

impl Default for SearchParams {
    fn default() -> (r: SearchParams)
        ensures
            r.depth == 5,
            r.move_time == 0,
            r.w_time == 0,
            r.b_time == 0,
    {
        SearchParams { depth: 5, move_time: 0, w_time: 0, b_time: 0 }
    }
}

} // verus!
