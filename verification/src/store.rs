//! The conversation history store: one transcript per conversation
//! identifier, seeded with a fixed system preamble, mutated only by
//! appends and explicit clears.

use vstd::prelude::*;
use std::collections::HashMap;
use crate::transcript::{Entry, EntryV, Role, entries_view};

verus! {

broadcast use vstd::std_specs::hash::group_hash_axioms;

/// A fresh transcript: exactly one entry, the system preamble.
pub open spec fn seeded_transcript(preamble: Seq<char>) -> Seq<EntryV> {
    seq![EntryV { role: Role::System, content: preamble }]
}

/// The transcript an append for `id` extends: the stored one, or a
/// fresh seeded one when `id` has none yet.
pub open spec fn base_of(m: Map<u64, Seq<EntryV>>, preamble: Seq<char>, id: u64) -> Seq<EntryV> {
    if m.contains_key(id) {
        m[id]
    } else {
        seeded_transcript(preamble)
    }
}

/// The store after appending `e` to the transcript for `id`,
/// creating-and-seeding that transcript first when absent.
pub open spec fn append_spec(
    m: Map<u64, Seq<EntryV>>,
    preamble: Seq<char>,
    id: u64,
    e: EntryV,
) -> Map<u64, Seq<EntryV>> {
    m.insert(id, base_of(m, preamble, id).push(e))
}

/// The store after a lazy lookup of `id`: unchanged when present,
/// else extended with a fresh seeded transcript.
pub open spec fn init_spec(
    m: Map<u64, Seq<EntryV>>,
    preamble: Seq<char>,
    id: u64,
) -> Map<u64, Seq<EntryV>> {
    if m.contains_key(id) {
        m
    } else {
        m.insert(id, seeded_transcript(preamble))
    }
}

/// The store after clearing `id`: its transcript is gone entirely.
pub open spec fn clear_spec(m: Map<u64, Seq<EntryV>>, id: u64) -> Map<u64, Seq<EntryV>> {
    m.remove(id)
}

/// Maps each conversation identifier to its ordered transcript.
///
/// The store is the single owner of every transcript; callers only
/// ever receive copies. Mutual exclusion around a whole store value
/// (one critical section per operation) is the caller's concern.
pub struct HistoryStore {
    preamble: String,
    map: HashMap<u64, Vec<Entry>>,
}

impl HistoryStore {
    /// The fixed system preamble every fresh transcript starts with.
    pub closed spec fn sys_preamble(self) -> Seq<char> {
        self.preamble@
    }

    /// The abstract contents: conversation identifier -> transcript.
    pub closed spec fn transcripts(self) -> Map<u64, Seq<EntryV>> {
        Map::new(
            |id: u64| self.map@.contains_key(id),
            |id: u64| entries_view(self.map@[id]@),
        )
    }

    /// An empty store remembering the preamble for future seeding.
    pub fn new(preamble: String) -> (s: HistoryStore)
        ensures
            s.transcripts() == Map::<u64, Seq<EntryV>>::empty(),
            s.sys_preamble() == preamble@,
    {
        let s = HistoryStore { preamble, map: HashMap::new() };
        proof {
            assert(s.transcripts() =~= Map::<u64, Seq<EntryV>>::empty());
        }
        s
    }

    /// A fresh one-entry transcript holding the system preamble.
    fn seeded_vec(&self) -> (t: Vec<Entry>)
        ensures
            entries_view(t@) == seeded_transcript(self.sys_preamble()),
    {
        let mut t: Vec<Entry> = Vec::new();
        t.push(Entry { role: Role::System, content: self.preamble.clone() });
        proof {
            assert(entries_view(t@) =~~= seeded_transcript(self.sys_preamble()));
        }
        t
    }

    /// Whether a transcript currently exists for `id`.
    pub fn has_transcript(&self, id: u64) -> (r: bool)
        ensures
            r == self.transcripts().contains_key(id),
    {
        self.map.contains_key(&id)
    }

    /// Returns a copy of the transcript for `id`, creating it seeded
    /// with the system preamble when absent.
    pub fn get_or_init(&mut self, id: u64) -> (t: Vec<Entry>)
        ensures
            final(self).sys_preamble() == old(self).sys_preamble(),
            final(self).transcripts() == init_spec(
                old(self).transcripts(),
                old(self).sys_preamble(),
                id,
            ),
            final(self).transcripts().contains_key(id),
            entries_view(t@) == final(self).transcripts()[id],
    {
        if !self.map.contains_key(&id) {
            let seeded = self.seeded_vec();
            self.map.insert(id, seeded);
            proof {
                assert(self.transcripts() =~~= init_spec(
                    old(self).transcripts(),
                    old(self).sys_preamble(),
                    id,
                ));
            }
        } else {
            proof {
                assert(self.transcripts() =~~= init_spec(
                    old(self).transcripts(),
                    old(self).sys_preamble(),
                    id,
                ));
            }
        }
        let t = clone_entries(self.map.get(&id).unwrap());
        t
    }

    /// Appends `e` to the transcript for `id`, creating-and-seeding
    /// it first when absent.
    pub fn append(&mut self, id: u64, e: Entry)
        ensures
            final(self).sys_preamble() == old(self).sys_preamble(),
            final(self).transcripts() == append_spec(
                old(self).transcripts(),
                old(self).sys_preamble(),
                id,
                e@,
            ),
    {
        let ghost m0 = self.transcripts();
        let mut t: Vec<Entry> = match self.map.remove(&id) {
            Some(t) => t,
            None => self.seeded_vec(),
        };
        proof {
            assert(entries_view(t@) =~~= base_of(m0, old(self).sys_preamble(), id));
        }
        t.push(e);
        self.map.insert(id, t);
        proof {
            assert(entries_view(t@) =~~= base_of(m0, old(self).sys_preamble(), id).push(e@));
            assert(self.transcripts() =~~= append_spec(m0, old(self).sys_preamble(), id, e@));
        }
    }

    /// Removes the transcript for `id` entirely; the next access
    /// re-seeds it from scratch.
    pub fn clear(&mut self, id: u64)
        ensures
            final(self).sys_preamble() == old(self).sys_preamble(),
            final(self).transcripts() == clear_spec(old(self).transcripts(), id),
    {
        self.map.remove(&id);
        proof {
            assert(self.transcripts() =~~= clear_spec(old(self).transcripts(), id));
        }
    }
}

/// An element-for-element copy of a transcript.
fn clone_entries(v: &Vec<Entry>) -> (r: Vec<Entry>)
    ensures
        r@ == v@,
{
    let mut r: Vec<Entry> = Vec::new();
    let mut i: usize = 0;
    while i < v.len()
        invariant
            i <= v.len(),
            r@ == v@.take(i as int),
        decreases v.len() - i,
    {
        r.push(v[i].clone());
        i = i + 1;
        proof {
            assert(r@ =~= v@.take(i as int));
        }
    }
    proof {
        assert(v@.take(v@.len() as int) =~= v@);
    }
    r
}

} // verus!
