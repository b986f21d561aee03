//! The entry manager: creating, replacing, removing and listing the plain
//! entries of an open vault. Entries are found by their identifier.

use crate::entry::{PasswordData, PasswordDataView, PasswordType, PasswordTypeView};
use vstd::prelude::*;

verus! {

/// The model of a list of plain entries.
pub open spec fn entries_view(entries: Seq<PasswordData>) -> Seq<PasswordDataView> {
    entries.map_values(|e: PasswordData| e@)
}

/// The model of a list of entries in either form.
pub open spec fn listed_view(entries: Seq<PasswordType>) -> Seq<PasswordTypeView> {
    entries.map_values(|e: PasswordType| e@)
}

/// Plain entries as they are listed: each as the plain form of an entry.
pub open spec fn listed(entries: Seq<PasswordDataView>) -> Seq<PasswordTypeView> {
    entries.map_values(|e: PasswordDataView| PasswordTypeView::Data(e))
}

/// Whether `entry` has the identifier `uuid`.
pub open spec fn targets(entry: PasswordDataView, uuid: Seq<char>) -> bool {
    entry.uuid == uuid
}

/// Whether some entry has the identifier `uuid`.
pub open spec fn holds_uuid(entries: Seq<PasswordDataView>, uuid: Seq<char>) -> bool {
    exists|i: int| 0 <= i < entries.len() && targets(#[trigger] entries[i], uuid)
}

/// Whether no two entries share an identifier.
pub open spec fn uuids_distinct(entries: Seq<PasswordDataView>) -> bool {
    forall|i: int, j: int|
        0 <= i < entries.len() && 0 <= j < entries.len() && i != j ==> (#[trigger] entries[i]).uuid
            != (#[trigger] entries[j]).uuid
}

/// The list after a new entry for `uuid` was created: the placeholder comes
/// last.
pub open spec fn created(entries: Seq<PasswordDataView>, uuid: Seq<char>) -> Seq<
    PasswordDataView,
> {
    entries.push(PasswordDataView::placeholder(uuid))
}

/// The list after `data` replaced the entry with its identifier: every
/// entry with that identifier becomes `data`, all else stays.
pub open spec fn updated(entries: Seq<PasswordDataView>, data: PasswordDataView) -> Seq<
    PasswordDataView,
> {
    entries.map_values(
        |e: PasswordDataView|
            if targets(e, data.uuid) {
                data
            } else {
                e
            },
    )
}

/// The list after the entry with the identifier `uuid` was removed: the
/// others stay, in their order.
pub open spec fn deleted(entries: Seq<PasswordDataView>, uuid: Seq<char>) -> Seq<
    PasswordDataView,
> {
    entries.filter(|e: PasswordDataView| !targets(e, uuid))
}

/// Appends the placeholder entry for the identifier `uuid` and returns it.
pub fn create_entry(entries: &mut Vec<PasswordData>, uuid: String) -> (entry: PasswordData)
    ensures
        entry@ == PasswordDataView::placeholder(uuid@),
        entries_view(final(entries)@) == created(entries_view(old(entries)@), uuid@),
{
    let entry = PasswordData::placeholder(uuid);
    entries.push(entry.clone());
    entry
}

/// Replaces the entry that has the identifier of `data` by `data`. Nothing
/// changes where no entry has it.
pub fn update_entry(entries: &mut Vec<PasswordData>, data: &PasswordData)
    ensures
        entries_view(final(entries)@) == updated(entries_view(old(entries)@), data@),
{
    let ghost before = entries_view(entries@);
    let mut out: Vec<PasswordData> = Vec::new();
    let mut i: usize = 0;
    while i < entries.len()
        invariant
            i <= entries.len(),
            before == entries_view(entries@),
            entries_view(out@) == updated(before, data@).take(i as int),
        decreases entries.len() - i,
    {
        if entries[i].uuid == data.uuid {
            out.push(data.clone());
        } else {
            out.push(entries[i].clone());
        }
        assert(entries_view(out@) =~= updated(before, data@).take(i as int).push(
            updated(before, data@)[i as int],
        ));
        i = i + 1;
    }
    *entries = out;
}

/// Removes the entry that has the identifier `uuid`. Nothing changes where
/// no entry has it.
pub fn delete_entry(entries: &mut Vec<PasswordData>, uuid: &String)
    ensures
        entries_view(final(entries)@) == deleted(entries_view(old(entries)@), uuid@),
{
    let ghost before = entries_view(entries@);
    let ghost keep = |e: PasswordDataView| !targets(e, uuid@);
    let mut out: Vec<PasswordData> = Vec::new();
    let mut i: usize = 0;
    proof {
        reveal(Seq::filter);
    }
    while i < entries.len()
        invariant
            i <= entries.len(),
            before == entries_view(entries@),
            keep == |e: PasswordDataView| !targets(e, uuid@),
            entries_view(out@) == before.take(i as int).filter(keep),
        decreases entries.len() - i,
    {
        proof {
            reveal(Seq::filter);
            assert(before.take(i + 1).drop_last() =~= before.take(i as int));
        }
        if entries[i].uuid != *uuid {
            out.push(entries[i].clone());
        }
        i = i + 1;
    }
    assert(before.take(i as int) =~= before);
    *entries = out;
}

/// The entries as they are listed: a copy of each, as the plain form of an
/// entry.
pub fn list_entries(entries: &Vec<PasswordData>) -> (list: Vec<PasswordType>)
    ensures
        listed_view(list@) == listed(entries_view(entries@)),
{
    let ghost model = listed(entries_view(entries@));
    let mut list: Vec<PasswordType> = Vec::new();
    let mut i: usize = 0;
    while i < entries.len()
        invariant
            i <= entries.len(),
            model == listed(entries_view(entries@)),
            listed_view(list@) == model.take(i as int),
        decreases entries.len() - i,
    {
        list.push(PasswordType::Data(entries[i].clone()));
        assert(listed_view(list@) =~= model.take(i as int).push(model[i as int]));
        i = i + 1;
    }
    list
}

/// Every item of a filtered sequence is an item of the sequence, and meets
/// the predicate.
proof fn lemma_filter_from<A>(s: Seq<A>, pred: spec_fn(A) -> bool, i: int)
    requires
        0 <= i < s.filter(pred).len(),
    ensures
        pred(s.filter(pred)[i]),
        exists|k: int| 0 <= k < s.len() && s[k] == s.filter(pred)[i],
    decreases s.len(),
{
    reveal(Seq::filter);
    if s.len() > 0 {
        let rest = s.drop_last().filter(pred);
        if i < rest.len() {
            lemma_filter_from(s.drop_last(), pred, i);
        }
    }
}

/// Filtering by a predicate that every item meets changes nothing.
proof fn lemma_filter_all<A>(s: Seq<A>, pred: spec_fn(A) -> bool)
    requires
        forall|i: int| 0 <= i < s.len() ==> pred(#[trigger] s[i]),
    ensures
        s.filter(pred) == s,
    decreases s.len(),
{
    reveal(Seq::filter);
    if s.len() > 0 {
        lemma_filter_all(s.drop_last(), pred);
    }
}

/// A new entry that is given a new password comes out, by its identifier,
/// as exactly one entry more: it is last, holds what it was given, and the
/// entries before it are as they were.
pub proof fn lemma_create_then_update(
    entries: Seq<PasswordDataView>,
    uuid: Seq<char>,
    data: PasswordDataView,
)
    requires
        !holds_uuid(entries, uuid),
        data.uuid == uuid,
    ensures
        updated(created(entries, uuid), data) == entries.push(data),
{
    assert(updated(created(entries, uuid), data) =~= entries.push(data));
}

/// Replacing an entry whose identifier no entry has changes nothing.
pub proof fn lemma_update_absent(entries: Seq<PasswordDataView>, data: PasswordDataView)
    requires
        !holds_uuid(entries, data.uuid),
    ensures
        updated(entries, data) == entries,
{
    assert(updated(entries, data) =~= entries);
}

/// Replacing an entry changes no entry's identifier, and none but the
/// entries with the identifier of `data`.
pub proof fn lemma_update_others(entries: Seq<PasswordDataView>, data: PasswordDataView, i: int)
    requires
        0 <= i < entries.len(),
    ensures
        updated(entries, data).len() == entries.len(),
        targets(entries[i], data.uuid) ==> updated(entries, data)[i] == data,
        !targets(entries[i], data.uuid) ==> updated(entries, data)[i] == entries[i],
        updated(entries, data)[i].uuid == entries[i].uuid,
{
}

/// Removing an entry whose identifier no entry has changes nothing.
pub proof fn lemma_delete_absent(entries: Seq<PasswordDataView>, uuid: Seq<char>)
    requires
        !holds_uuid(entries, uuid),
    ensures
        deleted(entries, uuid) == entries,
{
    lemma_filter_all(entries, |e: PasswordDataView| !targets(e, uuid));
}

/// Where identifiers are distinct, removing by the identifier of the entry
/// at `i` removes exactly that entry: all others stay, in their order.
pub proof fn lemma_delete_present(entries: Seq<PasswordDataView>, uuid: Seq<char>, i: int)
    requires
        uuids_distinct(entries),
        0 <= i < entries.len(),
        targets(entries[i], uuid),
    ensures
        deleted(entries, uuid) == entries.remove(i),
{
    let keep = |e: PasswordDataView| !targets(e, uuid);
    let head = entries.take(i);
    let mid = seq![entries[i]];
    let tail = entries.skip(i + 1);
    assert(entries =~= head + mid + tail);
    lemma_filter_all(head, keep);
    lemma_filter_all(tail, keep);
    assert(mid.filter(keep) =~= Seq::<PasswordDataView>::empty()) by {
        reveal_with_fuel(Seq::filter, 2);
    }
    Seq::filter_distributes_over_add(head, mid, keep);
    Seq::filter_distributes_over_add(head + mid, tail, keep);
}

/// After a removal no entry has the removed identifier.
pub proof fn lemma_deleted_gone(entries: Seq<PasswordDataView>, uuid: Seq<char>)
    ensures
        !holds_uuid(deleted(entries, uuid), uuid),
{
    let keep = |e: PasswordDataView| !targets(e, uuid);
    let out = entries.filter(keep);
    assert forall|i: int| 0 <= i < out.len() implies !targets(#[trigger] out[i], uuid) by {
        lemma_filter_from(entries, keep, i);
    }
}

/// Creating an entry under an identifier that no entry has keeps the
/// identifiers distinct.
pub proof fn lemma_created_distinct(entries: Seq<PasswordDataView>, uuid: Seq<char>)
    requires
        uuids_distinct(entries),
        !holds_uuid(entries, uuid),
    ensures
        uuids_distinct(created(entries, uuid)),
{
}

/// Replacing an entry keeps the identifiers distinct.
pub proof fn lemma_updated_distinct(entries: Seq<PasswordDataView>, data: PasswordDataView)
    requires
        uuids_distinct(entries),
    ensures
        uuids_distinct(updated(entries, data)),
{
}

/// Removing an entry keeps the identifiers distinct.
pub proof fn lemma_deleted_distinct(entries: Seq<PasswordDataView>, uuid: Seq<char>)
    requires
        uuids_distinct(entries),
    ensures
        uuids_distinct(deleted(entries, uuid)),
{
    if holds_uuid(entries, uuid) {
        let i = choose|i: int| 0 <= i < entries.len() && targets(#[trigger] entries[i], uuid);
        lemma_delete_present(entries, uuid, i);
    } else {
        lemma_delete_absent(entries, uuid);
    }
}

} // verus!
