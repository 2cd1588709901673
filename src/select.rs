//! Picking an item from the catalogue, and listing its identifications in
//! the catalogue's order.
use vstd::prelude::*;
use crate::items::{Id, Identification, IdentificationOrder, Item, StatusId};

verus! {

/// ASCII lower-casing of one character; other characters stay as they are.
pub open spec fn ascii_lower(c: char) -> char {
    if 'A' <= c && c <= 'Z' {
        ((c as u32) + 32) as char
    } else {
        c
    }
}

/// Whether two strings are equal when ASCII letters are compared without case.
pub open spec fn eq_ignoring_ascii_case(a: Seq<char>, b: Seq<char>) -> bool {
    a.len() == b.len() && forall|i: int|
        0 <= i < a.len() ==> ascii_lower(#[trigger] a[i]) == ascii_lower(b[i])
}

/// Relies on `str::eq_ignore_ascii_case`: equal lengths, and equal
/// characters once ASCII letters are lower-cased.
#[verifier::external_body]
fn eq_ignore_case(a: &str, b: &str) -> (r: bool)
    ensures
        r == eq_ignoring_ascii_case(a@, b@),
{
    a.eq_ignore_ascii_case(b)
}

/// The index of the first item whose name is `name`, ignoring ASCII case.
pub fn find_item(items: &Vec<Item>, name: &str) -> (r: Option<usize>)
    ensures
        match r {
            Some(i) => i < items@.len() && eq_ignoring_ascii_case(items@[i as int].name@, name@)
                && forall|j: int|
                0 <= j < i ==> !eq_ignoring_ascii_case(#[trigger] items@[j].name@, name@),
            None => forall|j: int|
                0 <= j < items@.len() ==> !eq_ignoring_ascii_case(#[trigger] items@[j].name@, name@),
        },
{
    let mut i: usize = 0;
    while i < items.len()
        invariant
            i <= items@.len(),
            forall|j: int| 0 <= j < i ==> !eq_ignoring_ascii_case(#[trigger] items@[j].name@, name@),
        decreases items.len() - i,
    {
        if eq_ignore_case(items[i].name.as_str(), name) {
            return Some(i);
        }
        i = i + 1;
    }
    None
}

/// `e` placed into `s` before the first entry with a greater position.
pub open spec fn insert_by_position(s: Seq<(Identification, i32)>, e: (Identification, i32)) -> Seq<
    (Identification, i32),
>
    decreases s.len(),
{
    if s.len() == 0 {
        seq![e]
    } else if s[0].1 > e.1 {
        seq![e] + s
    } else {
        seq![s[0]] + insert_by_position(s.drop_first(), e)
    }
}

/// The entries ordered by position; entries of equal position keep their
/// order (a stable sort).
pub open spec fn sort_by_position(s: Seq<(Identification, i32)>) -> Seq<(Identification, i32)>
    decreases s.len(),
{
    if s.len() == 0 {
        Seq::empty()
    } else {
        insert_by_position(sort_by_position(s.drop_last()), s.last())
    }
}

/// The status of the first entry of `statuses` with the key `key`, if any.
pub open spec fn status_of(statuses: Seq<(Identification, StatusId)>, key: Identification) -> Option<
    StatusId,
>
    decreases statuses.len(),
{
    if statuses.len() == 0 {
        None
    } else if statuses[0].0.0@ == key.0@ {
        Some(statuses[0].1)
    } else {
        status_of(statuses.drop_first(), key)
    }
}

/// An identification at its base roll.
pub open spec fn fresh_id(key: Identification, st: StatusId) -> Id {
    Id { id: key, idtype: st.status_type, fixed: st.fixed, baseval: st.base, value: st.base }
}

/// One identification at its base roll for each entry that has a status,
/// in the order of the entries.
pub open spec fn ids_for(
    entries: Seq<(Identification, i32)>,
    statuses: Seq<(Identification, StatusId)>,
) -> Seq<Id>
    decreases entries.len(),
{
    if entries.len() == 0 {
        Seq::empty()
    } else {
        ids_for(entries.drop_last(), statuses) + match status_of(statuses, entries.last().0) {
            Some(st) => seq![fresh_id(entries.last().0, st)],
            None => Seq::empty(),
        }
    }
}

proof fn lemma_insert_at(s: Seq<(Identification, i32)>, e: (Identification, i32), j: int)
    requires
        0 <= j <= s.len(),
        forall|k: int| 0 <= k < j ==> (#[trigger] s[k]).1 <= e.1,
        j == s.len() || s[j].1 > e.1,
    ensures
        insert_by_position(s, e) == s.insert(j, e),
    decreases j,
{
    if j == 0 {
        if s.len() == 0 {
            assert(s.insert(0, e) == seq![e]);
        } else {
            assert(s.insert(0, e) == seq![e] + s);
        }
    } else {
        let t = s.drop_first();
        assert forall|k: int| 0 <= k < j - 1 implies (#[trigger] t[k]).1 <= e.1 by {
            assert(t[k] == s[k + 1]);
        }
        lemma_insert_at(t, e, j - 1);
        assert(s.insert(j, e) == seq![s[0]] + t.insert(j - 1, e));
    }
}

fn status_lookup(statuses: &Vec<(Identification, StatusId)>, key: &Identification) -> (r: Option<
    StatusId,
>)
    ensures
        r == status_of(statuses@, *key),
{
    let mut i: usize = 0;
    proof {
        assert(statuses@.skip(0) == statuses@);
    }
    while i < statuses.len()
        invariant
            i <= statuses@.len(),
            status_of(statuses@, *key) == status_of(statuses@.skip(i as int), *key),
        decreases statuses.len() - i,
    {
        proof {
            assert(statuses@.skip(i as int).drop_first() == statuses@.skip(i + 1));
        }
        if statuses[i].0.0 == key.0 {
            return Some(statuses[i].1);
        }
        i = i + 1;
    }
    None
}

fn sorted_order(order: &Vec<(Identification, i32)>) -> (r: Vec<(Identification, i32)>)
    ensures
        r@ == sort_by_position(order@),
{
    let mut sorted: Vec<(Identification, i32)> = Vec::new();
    let mut i: usize = 0;
    while i < order.len()
        invariant
            i <= order@.len(),
            sorted@ == sort_by_position(order@.take(i as int)),
        decreases order.len() - i,
    {
        let e = (order[i].0.clone(), order[i].1);
        let mut j: usize = 0;
        while j < sorted.len() && sorted[j].1 <= e.1
            invariant
                j <= sorted@.len(),
                forall|k: int| 0 <= k < j ==> (#[trigger] sorted@[k]).1 <= e.1,
            decreases sorted.len() - j,
        {
            j = j + 1;
        }
        proof {
            lemma_insert_at(sorted@, e, j as int);
            assert(order@.take(i + 1).drop_last() == order@.take(i as int));
            assert(order@.take(i + 1).last() == e);
        }
        sorted.insert(j, e);
        i = i + 1;
    }
    proof {
        assert(order@.take(order@.len() as int) == order@);
    }
    sorted
}

/// The identifications of `item`, each at its base roll, in the order of
/// their positions in `ord` (entries of equal position in the order `ord`
/// lists them); keys that `ord` does not list, or that the item lacks, are
/// left out.
pub fn read_ids(item: &Item, ord: &IdentificationOrder) -> (r: Vec<Id>)
    ensures
        r@ == ids_for(sort_by_position(ord.order@), item.statuses@),
{
    let ordering = sorted_order(&ord.order);
    let mut finalids: Vec<Id> = Vec::new();
    let mut i: usize = 0;
    while i < ordering.len()
        invariant
            i <= ordering@.len(),
            ordering@ == sort_by_position(ord.order@),
            finalids@ == ids_for(ordering@.take(i as int), item.statuses@),
        decreases ordering.len() - i,
    {
        proof {
            assert(ordering@.take(i + 1).drop_last() == ordering@.take(i as int));
        }
        match status_lookup(&item.statuses, &ordering[i].0) {
            Some(sid) => {
                let id = ordering[i].0.clone();
                let ghost before = finalids@;
                finalids.push(
                    Id {
                        id,
                        idtype: sid.status_type,
                        fixed: sid.fixed,
                        baseval: sid.base,
                        value: sid.base,
                    },
                );
                proof {
                    assert(finalids@ == before + seq![fresh_id(ordering@[i as int].0, sid)]);
                }
            },
            None => {
                proof {
                    assert(ids_for(ordering@.take(i + 1), item.statuses@) == ids_for(
                        ordering@.take(i as int),
                        item.statuses@,
                    ) + Seq::<Id>::empty());
                }
            },
        }
        i = i + 1;
    }
    proof {
        assert(ordering@.take(ordering@.len() as int) == ordering@);
    }
    finalids
}

} // verus!
