//! How the time of a search is limited.

use vstd::prelude::*;

verus! {

/// The limit on the time of a search.
#[derive(Clone, Copy, Debug, PartialEq, Eq, Structural)]
pub enum TimeMode {
    /// No limit.
    Infinite,
    /// A fixed time for the move.
    MoveTime,
    /// A share of the time the side to move has left.
    WOrBTime,
}

impl TimeMode {
    /// Whether the mode limits the time at all.
    pub open spec fn spec_is_finite(tc: &TimeMode) -> bool {
        *tc != TimeMode::Infinite
    }

    #[verifier::when_used_as_spec(spec_is_finite)]
    pub fn is_finite(tc: &TimeMode) -> (r: bool)
        ensures
            r == TimeMode::spec_is_finite(tc),
    {
        match tc {
            TimeMode::MoveTime => true,
            TimeMode::WOrBTime => true,
            _ => false,
        }
    }
}

} // verus!
