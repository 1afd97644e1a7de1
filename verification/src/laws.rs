//! The store's transition laws: what sequences of appends, clears
//! and lazy lookups do to the abstract history, stated over the same
//! spec functions the executable contracts use.

use vstd::prelude::*;
use crate::store::{append_spec, base_of, clear_spec, init_spec, seeded_transcript};
use crate::transcript::{EntryV, Role};

verus! {

/// Appending one entry per conversation for two distinct
/// conversations loses neither entry, never merges the two
/// transcripts, and gives the same store in either order — so two
/// serialized concurrent appends are order-independent.
pub proof fn lemma_appends_independent(
    m: Map<u64, Seq<EntryV>>,
    preamble: Seq<char>,
    id1: u64,
    id2: u64,
    e1: EntryV,
    e2: EntryV,
)
    requires
        id1 != id2,
    ensures
        append_spec(append_spec(m, preamble, id1, e1), preamble, id2, e2)[id1] == base_of(
            m,
            preamble,
            id1,
        ).push(e1),
        append_spec(append_spec(m, preamble, id1, e1), preamble, id2, e2)[id2] == base_of(
            m,
            preamble,
            id2,
        ).push(e2),
        append_spec(append_spec(m, preamble, id1, e1), preamble, id2, e2) == append_spec(
            append_spec(m, preamble, id2, e2),
            preamble,
            id1,
            e1,
        ),
{
    assert(append_spec(append_spec(m, preamble, id1, e1), preamble, id2, e2) =~~= append_spec(
        append_spec(m, preamble, id2, e2),
        preamble,
        id1,
        e1,
    ));
}

/// The store after appending every entry of `es` to `id`, in order.
pub open spec fn append_all(
    m: Map<u64, Seq<EntryV>>,
    preamble: Seq<char>,
    id: u64,
    es: Seq<EntryV>,
) -> Map<u64, Seq<EntryV>>
    decreases es.len(),
{
    if es.len() == 0 {
        m
    } else {
        append_spec(append_all(m, preamble, id, es.drop_last()), preamble, id, es.last())
    }
}

/// N sequential appends for `id` produce a transcript whose entries,
/// after the transcript it started from (the seeded preamble for a
/// fresh conversation), are exactly the appended entries in order;
/// every other conversation is untouched.
pub proof fn lemma_appends_accumulate(
    m: Map<u64, Seq<EntryV>>,
    preamble: Seq<char>,
    id: u64,
    es: Seq<EntryV>,
)
    requires
        es.len() > 0,
    ensures
        append_all(m, preamble, id, es).contains_key(id),
        append_all(m, preamble, id, es)[id] == base_of(m, preamble, id) + es,
        forall|k: u64| k != id ==> append_all(m, preamble, id, es).contains_key(k)
            == m.contains_key(k),
        forall|k: u64| k != id && m.contains_key(k) ==> append_all(m, preamble, id, es)[k] == m[k],
    decreases es.len(),
{
    if es.len() == 1 {
        assert(append_all(m, preamble, id, es.drop_last()) == m);
        assert(base_of(m, preamble, id).push(es.last()) =~= base_of(m, preamble, id) + es);
    } else {
        lemma_appends_accumulate(m, preamble, id, es.drop_last());
        assert(base_of(append_all(m, preamble, id, es.drop_last()), preamble, id).push(es.last())
            =~= base_of(m, preamble, id) + es);
    }
    assert forall|k: u64| k != id implies #[trigger] append_all(m, preamble, id, es).contains_key(
        k,
    ) == m.contains_key(k) by {}
    assert forall|k: u64| k != id && m.contains_key(k) implies #[trigger] append_all(
        m,
        preamble,
        id,
        es,
    )[k] == m[k] by {}
}

/// Clearing a conversation and then lazily looking it up yields a
/// transcript holding exactly one entry: the system preamble.
pub proof fn lemma_clear_then_init(m: Map<u64, Seq<EntryV>>, preamble: Seq<char>, id: u64)
    ensures
        init_spec(clear_spec(m, id), preamble, id).contains_key(id),
        init_spec(clear_spec(m, id), preamble, id)[id].len() == 1,
        init_spec(clear_spec(m, id), preamble, id)[id][0] == (EntryV {
            role: Role::System,
            content: preamble,
        }),
{
    assert(init_spec(clear_spec(m, id), preamble, id)[id] == seeded_transcript(preamble));
}

/// Clearing a conversation twice in a row is the same as clearing it
/// once.
pub proof fn lemma_clear_idempotent(m: Map<u64, Seq<EntryV>>, id: u64)
    ensures
        clear_spec(clear_spec(m, id), id) == clear_spec(m, id),
{
    assert(clear_spec(clear_spec(m, id), id) =~~= clear_spec(m, id));
}

} // verus!
