//! The list as a sequence of record values, and what each operation makes of it.
//!
//! A lookup by identifier finds the earliest record that carries it. Records
//! keep the order in which they were created.

use vstd::prelude::*;
use crate::clock::Timestamp;
use crate::item::{ItemView, Patch};

verus! {

/// Some record of `s` carries `id`.
pub open spec fn has_id(s: Seq<ItemView>, id: Seq<char>) -> bool {
    exists|i: int| 0 <= i < s.len() && (#[trigger] s[i]).id == id
}

/// `i` is the position of the earliest record of `s` that carries `id`.
pub open spec fn is_first(s: Seq<ItemView>, id: Seq<char>, i: int) -> bool {
    &&& 0 <= i < s.len()
    &&& s[i].id == id
    &&& forall|j: int| 0 <= j < i ==> (#[trigger] s[j]).id != id
}

/// The position of the earliest record of `s` that carries `id`, where there is one.
pub open spec fn first_index(s: Seq<ItemView>, id: Seq<char>) -> int {
    choose|i: int| is_first(s, id, i)
}

/// The record that a lookup of `id` finds.
pub open spec fn lookup(s: Seq<ItemView>, id: Seq<char>) -> Option<ItemView> {
    if has_id(s, id) {
        Some(s[first_index(s, id)])
    } else {
        None
    }
}

/// No two records of `s` carry the same identifier.
pub open spec fn distinct_ids(s: Seq<ItemView>) -> bool {
    forall|i: int, j: int| 0 <= i < j < s.len() ==> (#[trigger] s[i]).id != (#[trigger] s[j]).id
}

/// No record of `s` was updated before it was created.
pub open spec fn chronological(s: Seq<ItemView>) -> bool {
    forall|i: int| 0 <= i < s.len() ==> (#[trigger] s[i]).created_at.at_or_before(s[i].updated_at)
}

/// A change of the record under `id` at time `now` would not date the change
/// before the record's creation.
pub open spec fn not_before_creation(s: Seq<ItemView>, id: Seq<char>, now: Timestamp) -> bool {
    lookup(s, id) matches Some(found) ==> found.created_at.at_or_before(now)
}

/// The record that a creation at time `now` makes.
pub open spec fn new_item(
    id: Seq<char>,
    title: Seq<char>,
    description: Option<Seq<char>>,
    now: Timestamp,
) -> ItemView {
    ItemView { id, title, description, completed: false, created_at: now, updated_at: now }
}

/// `item` after a change at time `now`: each field that `patch` names is
/// replaced, the others stay, and only `updated_at` moves.
pub open spec fn patched(item: ItemView, patch: Patch, now: Timestamp) -> ItemView {
    ItemView {
        id: item.id,
        title: match patch.title {
            Some(t) => t,
            None => item.title,
        },
        description: match patch.description {
            Some(d) => Some(d),
            None => item.description,
        },
        completed: match patch.completed {
            Some(c) => c,
            None => item.completed,
        },
        created_at: item.created_at,
        updated_at: now,
    }
}

/// The change that marks a record as done and touches nothing else.
pub open spec fn completion() -> Patch {
    Patch { title: None, description: None, completed: Some(true) }
}

/// The list after a creation: the new record stands last.
pub open spec fn after_create(s: Seq<ItemView>, item: ItemView) -> Seq<ItemView> {
    s.push(item)
}

/// The list after an update of `id` at time `now`.
pub open spec fn after_update(
    s: Seq<ItemView>,
    id: Seq<char>,
    patch: Patch,
    now: Timestamp,
) -> Seq<ItemView> {
    if has_id(s, id) {
        s.update(first_index(s, id), patched(s[first_index(s, id)], patch, now))
    } else {
        s
    }
}

/// The list after a deletion of `id`: the record found leaves, the others
/// keep their order.
pub open spec fn after_delete(s: Seq<ItemView>, id: Seq<char>) -> Seq<ItemView> {
    if has_id(s, id) {
        s.remove(first_index(s, id))
    } else {
        s
    }
}

/// An identifier that occurs at position `k` has an earliest position.
pub proof fn lemma_first_exists(s: Seq<ItemView>, id: Seq<char>, k: int)
    requires
        0 <= k < s.len(),
        s[k].id == id,
    ensures
        is_first(s, id, first_index(s, id)),
        first_index(s, id) <= k,
    decreases k,
{
    if forall|j: int| 0 <= j < k ==> (#[trigger] s[j]).id != id {
        assert(is_first(s, id, k));
        lemma_first_unique(s, id, k);
    } else {
        let j = choose|j: int| 0 <= j < k && (#[trigger] s[j]).id == id;
        lemma_first_exists(s, id, j);
    }
}

/// The earliest position of an identifier is the only one that is earliest.
pub proof fn lemma_first_unique(s: Seq<ItemView>, id: Seq<char>, i: int)
    requires
        is_first(s, id, i),
    ensures
        has_id(s, id),
        first_index(s, id) == i,
{
    let f = first_index(s, id);
    assert(is_first(s, id, f));
    if f < i {
        assert(s[f].id != id);
    }
    if i < f {
        assert(s[i].id != id);
    }
}

/// An identifier that occurs in the list is found at its earliest position.
pub proof fn lemma_has_id_first(s: Seq<ItemView>, id: Seq<char>)
    requires
        has_id(s, id),
    ensures
        is_first(s, id, first_index(s, id)),
{
    let k = choose|k: int| 0 <= k < s.len() && (#[trigger] s[k]).id == id;
    lemma_first_exists(s, id, k);
}

/// A creation keeps identifiers distinct where the new identifier is not yet
/// in the list, and keeps the timestamps in order.
pub proof fn lemma_create_keeps_invariants(s: Seq<ItemView>, item: ItemView)
    ensures
        distinct_ids(s) && !has_id(s, item.id) ==> distinct_ids(after_create(s, item)),
        chronological(s) && item.created_at.at_or_before(item.updated_at) ==> chronological(
            after_create(s, item),
        ),
{
    let t = after_create(s, item);
    if distinct_ids(s) && !has_id(s, item.id) {
        assert forall|i: int, j: int| 0 <= i < j < t.len() implies
            (#[trigger] t[i]).id != (#[trigger] t[j]).id by {
            if j == s.len() {
                assert(t[i] == s[i]);
            } else {
                assert(t[i] == s[i] && t[j] == s[j]);
            }
        }
    }
    if chronological(s) && item.created_at.at_or_before(item.updated_at) {
        assert forall|i: int| 0 <= i < t.len() implies
            (#[trigger] t[i]).created_at.at_or_before(t[i].updated_at) by {
            if i < s.len() {
                assert(t[i] == s[i]);
            }
        }
    }
}

/// A deletion keeps identifiers distinct and the timestamps in order.
pub proof fn lemma_delete_keeps_invariants(s: Seq<ItemView>, id: Seq<char>)
    ensures
        distinct_ids(s) ==> distinct_ids(after_delete(s, id)),
        chronological(s) ==> chronological(after_delete(s, id)),
{
    let t = after_delete(s, id);
    if has_id(s, id) {
        lemma_has_id_first(s, id);
        let f = first_index(s, id);
        if distinct_ids(s) {
            assert forall|i: int, j: int| 0 <= i < j < t.len() implies
                (#[trigger] t[i]).id != (#[trigger] t[j]).id by {
                let si = if i < f { i } else { i + 1 };
                let sj = if j < f { j } else { j + 1 };
                assert(t[i] == s[si] && t[j] == s[sj]);
            }
        }
        if chronological(s) {
            assert forall|i: int| 0 <= i < t.len() implies
                (#[trigger] t[i]).created_at.at_or_before(t[i].updated_at) by {
                let si = if i < f { i } else { i + 1 };
                assert(t[i] == s[si]);
            }
        }
    }
}

/// An update changes no identifier and moves no record.
pub proof fn lemma_update_keeps_ids(s: Seq<ItemView>, id: Seq<char>, patch: Patch, now: Timestamp)
    ensures
        after_update(s, id, patch, now).len() == s.len(),
        forall|i: int|
            0 <= i < s.len() ==> (#[trigger] after_update(s, id, patch, now)[i]).id == s[i].id,
        distinct_ids(s) ==> distinct_ids(after_update(s, id, patch, now)),
{
    let t = after_update(s, id, patch, now);
    if has_id(s, id) {
        lemma_has_id_first(s, id);
    }
    assert forall|i: int| 0 <= i < s.len() implies (#[trigger] t[i]).id == s[i].id by {}
    if distinct_ids(s) {
        assert forall|i: int, j: int| 0 <= i < j < t.len() implies
            (#[trigger] t[i]).id != (#[trigger] t[j]).id by {
            assert(t[i].id == s[i].id && t[j].id == s[j].id);
        }
    }
}

/// An update at a time that is not before the record's creation keeps every
/// record's `updated_at` at or after its `created_at`.
pub proof fn lemma_update_keeps_chronology(
    s: Seq<ItemView>,
    id: Seq<char>,
    patch: Patch,
    now: Timestamp,
)
    requires
        chronological(s),
        not_before_creation(s, id, now),
    ensures
        chronological(after_update(s, id, patch, now)),
{
    let t = after_update(s, id, patch, now);
    if has_id(s, id) {
        lemma_has_id_first(s, id);
        let f = first_index(s, id);
        assert forall|i: int| 0 <= i < t.len() implies
            (#[trigger] t[i]).created_at.at_or_before(t[i].updated_at) by {
            if i != f {
                assert(t[i] == s[i]);
            }
        }
    }
}

} // verus!
