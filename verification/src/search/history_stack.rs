//! The positions that led to the one the search is at, for the repetition
//! rule and for telling whether the side to move is improving.

use vstd::prelude::*;

verus! {

/// One position on the way: its Zobrist key and, where the search has
/// evaluated the position before it, that evaluation.
#[derive(Clone, Copy, Debug, PartialEq, Eq, Structural)]
pub struct HistoryStackEntry {
    pub key: u64,
    pub eval: Option<i32>,
}

/// The positions on the way, the latest last.
pub struct HistoryStack {
    pub stack: Vec<HistoryStackEntry>,
}

/// How often a key occurs among the first `n` entries.
pub open spec fn occurrences(entries: Seq<HistoryStackEntry>, key: u64, n: int) -> int
    decreases n,
{
    if n <= 0 {
        0
    } else {
        occurrences(entries, key, n - 1) + if entries[n - 1].key == key {
            1int
        } else {
            0int
        }
    }
}

/// How often a key occurs below the topmost entry.
pub open spec fn earlier_occurrences(entries: Seq<HistoryStackEntry>, key: u64) -> int {
    occurrences(entries, key, entries.len() - 1)
}

/// A key occurs among the first `n` entries exactly when its count there is
/// positive, and the count is at most `n`.
pub proof fn occurs_iff_counted(entries: Seq<HistoryStackEntry>, key: u64, n: int)
    requires
        n <= entries.len(),
    ensures
        0 <= occurrences(entries, key, n),
        occurrences(entries, key, n) <= if n < 0 {
            0
        } else {
            n
        },
        occurrences(entries, key, n) >= 1 <==> exists|i: int|
            0 <= i < n && (#[trigger] entries[i]).key == key,
    decreases n,
{
    if n > 0 {
        occurs_iff_counted(entries, key, n - 1);
        if entries[n - 1].key == key {
        } else if occurrences(entries, key, n) >= 1 {
            let i = choose|i: int| 0 <= i < n - 1 && (#[trigger] entries[i]).key == key;
            assert(0 <= i < n && entries[i].key == key);
        } else {
            assert forall|i: int| 0 <= i < n implies (#[trigger] entries[i]).key != key by {
                if i < n - 1 {
                }
            }
        }
    }
}

impl View for HistoryStack {
    type V = Seq<HistoryStackEntry>;

    open spec fn view(&self) -> Seq<HistoryStackEntry> {
        self.stack@
    }
}

impl HistoryStack {
    /// An empty stack.
    pub fn new() -> (r: HistoryStack)
        ensures
            r@ == Seq::<HistoryStackEntry>::empty(),
    {
        HistoryStack { stack: Vec::new() }
    }

    /// Puts a position on the stack.
    pub fn push(&mut self, zobrist: u64, eval: Option<i32>)
        ensures
            final(self)@ == old(self)@.push(HistoryStackEntry { key: zobrist, eval }),
    {
        self.stack.push(HistoryStackEntry { key: zobrist, eval });
    }

    /// Takes the latest position off the stack.
    pub fn pop(&mut self) -> (r: Option<HistoryStackEntry>)
        ensures
            old(self)@.len() == 0 ==> r is None && final(self)@ == old(self)@,
            old(self)@.len() > 0 ==>
                r == Some(old(self)@.last()) && final(self)@ == old(self)@.drop_last(),
    {
        self.stack.pop()
    }

    /// How often a key occurs below the topmost entry.
    pub fn count_zobrist(&self, zobrist: u64) -> (r: usize)
        ensures
            r == earlier_occurrences(self@, zobrist),
    {
        let len = self.stack.len();
        if len == 0 {
            return 0;
        }
        let mut count: usize = 0;
        let mut i: usize = 0;
        while i < len - 1
            invariant
                len == self.stack.len(),
                len > 0,
                i <= len - 1,
                count == occurrences(self@, zobrist, i as int),
                count <= i,
            decreases len - 1 - i,
        {
            if self.stack[i].key == zobrist {
                count += 1;
            }
            i += 1;
        }
        count
    }

    /// The evaluation kept with the entry at `ply`, if there is such an
    /// entry and it has one.
    pub fn get_eval(&self, ply: usize) -> (r: Option<i32>)
        ensures
            r == (if ply < self@.len() {
                self@[ply as int].eval
            } else {
                None
            }),
    {
        if ply >= self.stack.len() {
            return None;
        }
        self.stack[ply].eval
    }

    /// Empties the stack.
    pub fn clear(&mut self)
        ensures
            final(self)@ == Seq::<HistoryStackEntry>::empty(),
    {
        self.stack.clear();
    }

    /// The number of positions on the stack.
    pub fn len(&self) -> (r: usize)
        ensures
            r == self@.len(),
    {
        self.stack.len()
    }
}

} // verus!
