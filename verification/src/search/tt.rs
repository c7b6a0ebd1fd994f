//! The transposition table: a cache of searched positions, found by their
//! Zobrist keys.

use crate::bound::Bound;
use crate::chess::Move;
use vstd::prelude::*;

verus! {

/// The size of an entry, in bytes, by which a size in mebibytes is divided.
pub const ENTRY_SIZE: usize = 24;

/// The largest size of a table, in mebibytes.
pub const MAX_HASH: usize = 1024;

/// What is kept of a searched position.
#[derive(Clone, Copy, Debug, PartialEq, Eq, Structural)]
pub struct TranspositionTableEntry {
    pub key: u64,
    pub score: i32,
    pub depth: u8,
    pub generation: u8,
    pub bound: Bound,
    pub _move: Option<Move>,
}

impl TranspositionTableEntry {
    /// The entry of a slot that nothing was stored in.
    pub open spec fn empty() -> TranspositionTableEntry {
        TranspositionTableEntry {
            key: 0,
            score: 0,
            depth: 0,
            generation: 0,
            bound: Bound::Alpha,
            _move: None,
        }
    }
}

impl Default for TranspositionTableEntry {
    fn default() -> (r: TranspositionTableEntry)
        ensures
            r == TranspositionTableEntry::empty(),
    {
        TranspositionTableEntry {
            key: 0,
            score: 0,
            depth: 0,
            generation: 0,
            bound: Bound::Alpha,
            _move: None,
        }
    }
}

/// The number of entries of a table of `megabytes` mebibytes.
pub open spec fn entries_for(megabytes: int) -> int {
    megabytes * 1048576 / (ENTRY_SIZE as int)
}

/// The table. A key belongs to the slot whose number is the key's remainder
/// by the number of slots.
pub struct TranspositionTable {
    pub table: Vec<TranspositionTableEntry>,
    pub generation: u8,
    pub length: usize,
}

/// The size in mebibytes that a table of so many entries takes, rounded
/// down and held between 1 and `MAX_HASH`.
pub open spec fn megabytes_of(entries: int) -> int {
    let size = entries * ENTRY_SIZE / 1048576;
    if size < 1 {
        1
    } else if size > MAX_HASH {
        MAX_HASH as int
    } else {
        size
    }
}

/// Works out the size in mebibytes of a table of so many entries, for a
/// setting that gives the size of the table in entries.
pub fn megabytes_for(entries: usize) -> (r: usize)
    ensures
        r == megabytes_of(entries as int),
        1 <= r <= MAX_HASH,
{
    let size: u128 = (entries as u128) * (ENTRY_SIZE as u128) / 1048576;
    if size < 1 {
        1
    } else if size > MAX_HASH as u128 {
        MAX_HASH
    } else {
        size as usize
    }
}

impl TranspositionTable {
    /// The table has at least one slot, and as many as it was made with.
    pub open spec fn wf(&self) -> bool {
        self.length > 0 && self.table.len() == self.length
    }

    /// The number of slots.
    pub open spec fn spec_len(&self) -> int {
        self.length as int
    }

    /// The slot of a key.
    pub open spec fn slot(&self, key: u64) -> int {
        key as int % self.spec_len()
    }

    /// What the slot of a key holds.
    pub open spec fn entry_for(&self, key: u64) -> TranspositionTableEntry {
        self.table[self.slot(key)]
    }

    /// A table of `length` empty slots.
    pub fn new(length: usize) -> (r: TranspositionTable)
        requires
            length > 0,
        ensures
            r.wf(),
            r.spec_len() == length,
            r.generation == 0,
            forall|i: int|
                0 <= i < length ==> #[trigger] r.table[i] == TranspositionTableEntry::empty(),
    {
        TranspositionTable { table: Self::empty_slots(length), generation: 0, length }
    }

    /// A table of the given size in mebibytes, or `None` where the size is
    /// not from 1 to `MAX_HASH`.
    pub fn with_megabytes(megabytes: usize) -> (r: Option<TranspositionTable>)
        ensures
            r is Some <==> 1 <= megabytes <= MAX_HASH,
            r matches Some(t) ==> t.wf() && t.spec_len() == entries_for(megabytes as int)
                && t.generation == 0 && forall|i: int|
                0 <= i < t.spec_len() ==> #[trigger] t.table[i]
                    == TranspositionTableEntry::empty(),
    {
        if megabytes < 1 || megabytes > MAX_HASH {
            return None;
        }
        let bytes: u64 = (megabytes as u64) * 1048576;
        let length = (bytes / (ENTRY_SIZE as u64)) as usize;
        Some(TranspositionTable::new(length))
    }

    fn empty_slots(length: usize) -> (r: Vec<TranspositionTableEntry>)
        ensures
            r.len() == length,
            forall|i: int| 0 <= i < length ==> #[trigger] r[i] == TranspositionTableEntry::empty(),
    {
        let mut table: Vec<TranspositionTableEntry> = Vec::new();
        let mut i: usize = 0;
        while i < length
            invariant
                i <= length,
                table.len() == i,
                forall|j: int| 0 <= j < i ==>
                    #[trigger] table[j] == TranspositionTableEntry::empty(),
            decreases length - i,
        {
            table.push(TranspositionTableEntry::default());
            i += 1;
        }
        table
    }

    /// The number of slots.
    pub fn len(&self) -> (r: usize)
        ensures
            r == self.spec_len(),
    {
        self.length
    }

    /// What the slot of a key holds. It may be another position's: the
    /// caller compares the keys.
    pub fn probe(&self, key: u64) -> (r: TranspositionTableEntry)
        requires
            self.wf(),
        ensures
            r == self.entry_for(key),
    {
        let index = (key % (self.length as u64)) as usize;
        self.table[index]
    }

    /// Overwrites the slot of a key with a searched position, marked with
    /// the table's generation.
    pub fn store(&mut self, key: u64, depth: u8, score: i32, bound: Bound, _move: Move)
        requires
            old(self).wf(),
        ensures
            final(self).wf(),
            stored(
                old(self),
                final(self),
                key,
                TranspositionTableEntry {
                    key,
                    score,
                    depth,
                    generation: old(self).generation,
                    bound,
                    _move: Some(_move),
                },
            ),
            final(self).spec_len() == old(self).spec_len(),
            final(self).generation == old(self).generation,
            final(self).table@ == old(self).table@.update(
                old(self).slot(key),
                TranspositionTableEntry {
                    key,
                    score,
                    depth,
                    generation: old(self).generation,
                    bound,
                    _move: Some(_move),
                },
            ),
    {
        let index = (key % (self.length as u64)) as usize;
        let entry = TranspositionTableEntry {
            key,
            depth,
            score,
            bound,
            _move: Some(_move),
            generation: self.generation,
        };
        self.table[index] = entry;
    }

    /// Starts a new generation. After generation 255 comes generation 0.
    pub fn new_search(&mut self)
        ensures
            final(self).generation == (if old(self).generation == 255 {
                0u8
            } else {
                (old(self).generation + 1) as u8
            }),
            final(self).table == old(self).table,
            final(self).spec_len() == old(self).spec_len(),
            old(self).wf() ==> final(self).wf(),
    {
        self.generation = self.generation.wrapping_add(1);
    }

    /// Empties every slot.
    pub fn clear(&mut self)
        requires
            old(self).wf(),
        ensures
            final(self).wf(),
            final(self).spec_len() == old(self).spec_len(),
            final(self).generation == old(self).generation,
            forall|i: int|
                0 <= i < final(self).spec_len() ==> #[trigger] final(self).table[i]
                    == TranspositionTableEntry::empty(),
    {
        self.table = Self::empty_slots(self.length);
    }
}

/// What a table is after a store: the slot of the key holds the entry, and
/// nothing else has changed.
pub open spec fn stored(
    before: &TranspositionTable,
    after: &TranspositionTable,
    key: u64,
    entry: TranspositionTableEntry,
) -> bool {
    &&& after.length == before.length
    &&& after.generation == before.generation
    &&& after.table@ == before.table@.update(before.slot(key), entry)
}

/// A store overwrites: after two stores under one key a probe with that key
/// finds what was stored last, and the table is as if only the last store
/// had been made.
pub proof fn last_store_is_probed(
    table: &TranspositionTable,
    once: &TranspositionTable,
    twice: &TranspositionTable,
    key: u64,
    first: TranspositionTableEntry,
    second: TranspositionTableEntry,
)
    requires
        table.wf(),
        stored(table, once, key, first),
        stored(once, twice, key, second),
    ensures
        twice.entry_for(key) == second,
        stored(table, twice, key, second),
{
    assert(0 <= table.slot(key) < table.table.len()) by {
        vstd::arithmetic::div_mod::lemma_mod_bound(key as int, table.spec_len());
    }
    assert(table.table@.update(table.slot(key), first).update(table.slot(key), second)
        =~= table.table@.update(table.slot(key), second));
}

} // verus!
