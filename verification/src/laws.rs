//! What holds of the list under any sequence of operations.
//!
//! Requests may arrive concurrently, but each operation runs alone on the
//! list, so every interleaving is some sequence of operations: a law that
//! holds of all sequences holds of all interleavings.

use vstd::prelude::*;
use crate::clock::Timestamp;
use crate::item::{ItemView, Patch};
use crate::model::{
    after_create, after_delete, after_update, chronological, completion, distinct_ids,
    first_index, has_id, is_first, lemma_create_keeps_invariants, lemma_delete_keeps_invariants,
    lemma_first_unique, lemma_has_id_first, lemma_update_keeps_chronology, lemma_update_keeps_ids,
    lookup, new_item, not_before_creation, patched,
};

verus! {

/// One operation on the list, with the identifier and the clock reading that
/// it ran with.
pub ghost enum Op {
    List,
    Create { id: Seq<char>, title: Seq<char>, description: Option<Seq<char>>, now: Timestamp },
    Update { id: Seq<char>, patch: Patch, now: Timestamp },
    Delete { id: Seq<char> },
    Get { id: Seq<char> },
    Complete { id: Seq<char>, now: Timestamp },
}

/// The list after one operation.
pub open spec fn step(s: Seq<ItemView>, op: Op) -> Seq<ItemView> {
    match op {
        Op::List => s,
        Op::Get { .. } => s,
        Op::Create { id, title, description, now } => after_create(
            s,
            new_item(id, title, description, now),
        ),
        Op::Update { id, patch, now } => after_update(s, id, patch, now),
        Op::Complete { id, now } => after_update(s, id, completion(), now),
        Op::Delete { id } => after_delete(s, id),
    }
}

/// The list after the operations `ops`, run in order from the list `s`.
pub open spec fn run(s: Seq<ItemView>, ops: Seq<Op>) -> Seq<ItemView>
    decreases ops.len(),
{
    if ops.len() == 0 {
        s
    } else {
        step(run(s, ops.drop_last()), ops.last())
    }
}

/// `op` is no creation under an identifier that the list already holds.
pub open spec fn draws_fresh_id(s: Seq<ItemView>, op: Op) -> bool {
    op matches Op::Create { id, .. } ==> !has_id(s, id)
}

/// Every creation among `ops` runs under an identifier that the list does not
/// hold at that moment.
pub open spec fn creates_are_fresh(s: Seq<ItemView>, ops: Seq<Op>) -> bool {
    forall|k: int| 0 <= k < ops.len() ==> draws_fresh_id(run(s, ops.take(k)), #[trigger] ops[k])
}

/// `op` does not change a record at a time before the record's creation.
pub open spec fn clock_not_behind(s: Seq<ItemView>, op: Op) -> bool {
    match op {
        Op::Update { id, now, .. } => not_before_creation(s, id, now),
        Op::Complete { id, now } => not_before_creation(s, id, now),
        _ => true,
    }
}

/// The clock never reads a time before the creation of the record that an
/// operation among `ops` changes.
pub open spec fn clock_never_behind(s: Seq<ItemView>, ops: Seq<Op>) -> bool {
    forall|k: int| 0 <= k < ops.len() ==> clock_not_behind(run(s, ops.take(k)), #[trigger] ops[k])
}

/// The number of creations among `ops`.
pub open spec fn creations(ops: Seq<Op>) -> nat
    decreases ops.len(),
{
    if ops.len() == 0 {
        0
    } else {
        creations(ops.drop_last()) + (if ops.last() is Create {
            1nat
        } else {
            0nat
        })
    }
}

/// `op` is a deletion that finds its record in `s`.
pub open spec fn deletes_from(s: Seq<ItemView>, op: Op) -> bool {
    op matches Op::Delete { id } && has_id(s, id)
}

/// The number of deletions among `ops` that find their record, when `ops`
/// run in order from the list `s`.
pub open spec fn deletions(s: Seq<ItemView>, ops: Seq<Op>) -> nat
    decreases ops.len(),
{
    if ops.len() == 0 {
        0
    } else {
        deletions(s, ops.drop_last()) + (if deletes_from(run(s, ops.drop_last()), ops.last()) {
            1nat
        } else {
            0nat
        })
    }
}

/// One operation keeps identifiers distinct, unless it creates a record under
/// an identifier that the list already holds.
pub proof fn lemma_step_keeps_ids_distinct(s: Seq<ItemView>, op: Op)
    requires
        distinct_ids(s),
        draws_fresh_id(s, op),
    ensures
        distinct_ids(step(s, op)),
{
    match op {
        Op::List => {},
        Op::Get { .. } => {},
        Op::Create { id, title, description, now } => {
            lemma_create_keeps_invariants(s, new_item(id, title, description, now));
        },
        Op::Update { id, patch, now } => {
            lemma_update_keeps_ids(s, id, patch, now);
        },
        Op::Complete { id, now } => {
            lemma_update_keeps_ids(s, id, completion(), now);
        },
        Op::Delete { id } => {
            lemma_delete_keeps_invariants(s, id);
        },
    }
}

/// Identifiers stay unique at every point of every sequence of operations
/// that starts from a list with unique identifiers, as long as each creation
/// draws an identifier that the list does not hold at that moment.
pub proof fn lemma_ids_always_distinct(s: Seq<ItemView>, ops: Seq<Op>, k: int)
    requires
        distinct_ids(s),
        creates_are_fresh(s, ops),
        0 <= k <= ops.len(),
    ensures
        distinct_ids(run(s, ops.take(k))),
    decreases k,
{
    if k > 0 {
        lemma_ids_always_distinct(s, ops, k - 1);
        assert(ops.take(k).drop_last() =~= ops.take(k - 1));
        assert(ops.take(k).last() == ops[k - 1]);
        lemma_step_keeps_ids_distinct(run(s, ops.take(k - 1)), ops[k - 1]);
    }
}

/// One operation leaves no record with `updated_at` before `created_at`,
/// unless it changes a record at a time before the record's creation.
pub proof fn lemma_step_keeps_chronology(s: Seq<ItemView>, op: Op)
    requires
        chronological(s),
        clock_not_behind(s, op),
    ensures
        chronological(step(s, op)),
{
    match op {
        Op::List => {},
        Op::Get { .. } => {},
        Op::Create { id, title, description, now } => {
            lemma_create_keeps_invariants(s, new_item(id, title, description, now));
        },
        Op::Update { id, patch, now } => {
            lemma_update_keeps_chronology(s, id, patch, now);
        },
        Op::Complete { id, now } => {
            lemma_update_keeps_chronology(s, id, completion(), now);
        },
        Op::Delete { id } => {
            lemma_delete_keeps_invariants(s, id);
        },
    }
}

/// No record is ever updated before it was created, at every point of every
/// sequence of operations, as long as the clock never reads a time before the
/// creation of the record that an operation changes.
pub proof fn lemma_always_chronological(s: Seq<ItemView>, ops: Seq<Op>, k: int)
    requires
        chronological(s),
        clock_never_behind(s, ops),
        0 <= k <= ops.len(),
    ensures
        chronological(run(s, ops.take(k))),
    decreases k,
{
    if k > 0 {
        lemma_always_chronological(s, ops, k - 1);
        assert(ops.take(k).drop_last() =~= ops.take(k - 1));
        assert(ops.take(k).last() == ops[k - 1]);
        lemma_step_keeps_chronology(run(s, ops.take(k - 1)), ops[k - 1]);
    }
}

/// After any sequence of operations the list holds as many records as it
/// held at first, plus one for each creation, minus one for each deletion
/// that found its record: in whatever order the operations ran.
pub proof fn lemma_length_counts_creates_and_deletes(s: Seq<ItemView>, ops: Seq<Op>)
    ensures
        run(s, ops).len() == s.len() + creations(ops) - deletions(s, ops),
    decreases ops.len(),
{
    if ops.len() > 0 {
        let before = run(s, ops.drop_last());
        lemma_length_counts_creates_and_deletes(s, ops.drop_last());
        match ops.last() {
            Op::Update { id, patch, now } => {
                lemma_update_keeps_ids(before, id, patch, now);
            },
            Op::Complete { id, now } => {
                lemma_update_keeps_ids(before, id, completion(), now);
            },
            Op::Delete { id } => {
                if has_id(before, id) {
                    lemma_has_id_first(before, id);
                }
            },
            _ => {},
        }
    }
}

/// A record created under an identifier that the list does not hold is the
/// one that a lookup of that identifier then finds: not done, with the title
/// and description given, and with `updated_at` equal to `created_at`.
pub proof fn lemma_create_then_get(
    s: Seq<ItemView>,
    id: Seq<char>,
    title: Seq<char>,
    description: Option<Seq<char>>,
    now: Timestamp,
)
    requires
        !has_id(s, id),
    ensures
        lookup(after_create(s, new_item(id, title, description, now)), id) == Some(
            new_item(id, title, description, now),
        ),
        !new_item(id, title, description, now).completed,
        new_item(id, title, description, now).description == description,
        new_item(id, title, description, now).created_at == new_item(
            id,
            title,
            description,
            now,
        ).updated_at,
{
    let item = new_item(id, title, description, now);
    let t = after_create(s, item);
    assert forall|j: int| 0 <= j < s.len() implies (#[trigger] t[j]).id != id by {
        assert(t[j] == s[j]);
    }
    assert(is_first(t, id, s.len() as int));
    lemma_first_unique(t, id, s.len() as int);
}

/// An update that carries only `completed = true` leaves the record's
/// identifier, title, description and `created_at` as they were, marks it
/// done and sets `updated_at` to the time of the update: later than before,
/// where the clock has advanced.
pub proof fn lemma_completing_keeps_the_rest(s: Seq<ItemView>, id: Seq<char>, now: Timestamp)
    requires
        has_id(s, id),
    ensures
        lookup(s, id) matches Some(before) && lookup(after_update(s, id, completion(), now), id)
            matches Some(after) && after.id == before.id && after.title == before.title
            && after.description == before.description && after.created_at == before.created_at
            && after.completed && after.updated_at == now && (before.updated_at.before(now)
            ==> before.updated_at.before(after.updated_at)),
{
    lemma_update_then_get(s, id, completion(), now);
}

/// After an update, a lookup of the same identifier finds the changed record.
pub proof fn lemma_update_then_get(s: Seq<ItemView>, id: Seq<char>, patch: Patch, now: Timestamp)
    requires
        has_id(s, id),
    ensures
        lookup(s, id) matches Some(before) && lookup(after_update(s, id, patch, now), id) == Some(
            patched(before, patch, now),
        ),
{
    lemma_has_id_first(s, id);
    let f = first_index(s, id);
    let t = after_update(s, id, patch, now);
    assert forall|j: int| 0 <= j < f implies (#[trigger] t[j]).id != id by {
        assert(t[j] == s[j]);
    }
    assert(is_first(t, id, f));
    lemma_first_unique(t, id, f);
}

/// Once a record is deleted from a list with unique identifiers, its
/// identifier is gone: a lookup finds nothing, and a second deletion finds
/// nothing and changes nothing.
pub proof fn lemma_delete_then_absent(s: Seq<ItemView>, id: Seq<char>)
    requires
        distinct_ids(s),
    ensures
        !has_id(after_delete(s, id), id),
        lookup(after_delete(s, id), id) is None,
        after_delete(after_delete(s, id), id) == after_delete(s, id),
{
    if has_id(s, id) {
        lemma_has_id_first(s, id);
        let f = first_index(s, id);
        let t = after_delete(s, id);
        assert forall|j: int| 0 <= j < t.len() implies (#[trigger] t[j]).id != id by {
            if j < f {
                assert(t[j] == s[j]);
            } else {
                assert(t[j] == s[j + 1]);
                assert(s[f].id != s[j + 1].id);
            }
        }
    }
}

/// A deletion takes out one record and leaves the others in the order they
/// had: the records before it stay where they were, those after it move up
/// by one place.
pub proof fn lemma_delete_keeps_order(s: Seq<ItemView>, id: Seq<char>)
    requires
        has_id(s, id),
    ensures
        after_delete(s, id).len() == s.len() - 1,
        forall|j: int|
            0 <= j < first_index(s, id) ==> (#[trigger] after_delete(s, id)[j]) == s[j],
        forall|j: int|
            first_index(s, id) <= j < s.len() - 1 ==> (#[trigger] after_delete(s, id)[j]) == s[j
                + 1],
{
    lemma_has_id_first(s, id);
}

} // verus!
