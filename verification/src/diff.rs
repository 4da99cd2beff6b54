//! The poll cycle's set difference and the events one cycle emits.
//!
//! A cycle compares the devices observed after the previous cycle (`stored`)
//! with the snapshot the platform reports now (`current`) and emits
//! `Remove` for every device that is gone, then `Add` for every device that
//! is new. The difference is pure: it reads two snapshots and decides the
//! whole cycle's output at once.
use vstd::prelude::*;

use crate::device::DeviceId;
use crate::device::Event;

verus! {

/// The elements of `a` that do not occur in `b`, keeping the order of `a`.
pub open spec fn seq_diff(a: Seq<DeviceId>, b: Seq<DeviceId>) -> Seq<DeviceId>
    decreases a.len(),
{
    if a.len() == 0 {
        Seq::empty()
    } else if b.contains(a.last()) {
        seq_diff(a.drop_last(), b)
    } else {
        seq_diff(a.drop_last(), b).push(a.last())
    }
}

/// A `Remove` event for each identifier, in the order given.
pub open spec fn removal_events(ids: Seq<DeviceId>) -> Seq<Event> {
    ids.map_values(|d: DeviceId| Event::Remove(d))
}

/// An `Add` event for each identifier, in the order given.
pub open spec fn addition_events(ids: Seq<DeviceId>) -> Seq<Event> {
    ids.map_values(|d: DeviceId| Event::Add(d))
}

/// Everything one poll cycle emits when the known set is `stored` and the
/// new snapshot is `current`: removals first, additions after.
pub open spec fn cycle_events(stored: Seq<DeviceId>, current: Seq<DeviceId>) -> Seq<Event> {
    removal_events(seq_diff(stored, current)) + addition_events(seq_diff(current, stored))
}

/// Whether `v` holds the identifier `d`.
fn contains_id(v: &Vec<DeviceId>, d: DeviceId) -> (r: bool)
    ensures
        r == v@.contains(d),
{
    let mut i: usize = 0;
    while i < v.len()
        invariant
            0 <= i <= v@.len(),
            forall|j: int| 0 <= j < i ==> v@[j] != d,
        decreases v@.len() - i,
    {
        if v[i].raw == d.raw {
            assert(v@[i as int] == d);
            return true;
        }
        i += 1;
    }
    assert(!v@.contains(d));
    false
}

/// The devices in `a` that are missing from `b`, in the order of `a`.
pub fn difference(a: &Vec<DeviceId>, b: &Vec<DeviceId>) -> (r: Vec<DeviceId>)
    ensures
        r@ == seq_diff(a@, b@),
{
    let mut r: Vec<DeviceId> = Vec::new();
    let mut i: usize = 0;
    while i < a.len()
        invariant
            0 <= i <= a@.len(),
            r@ == seq_diff(a@.subrange(0, i as int), b@),
        decreases a@.len() - i,
    {
        let d = a[i];
        proof {
            assert(a@.subrange(0, i as int + 1).drop_last() =~= a@.subrange(0, i as int));
            assert(a@.subrange(0, i as int + 1).last() == a@[i as int]);
        }
        if !contains_id(b, d) {
            r.push(d);
        }
        i += 1;
    }
    proof {
        assert(a@.subrange(0, a@.len() as int) =~= a@);
    }
    r
}

/// All events one poll cycle emits: a `Remove` for every stored device that
/// the snapshot no longer shows, then an `Add` for every snapshot device
/// that was not stored.
pub fn cycle_diff(stored: &Vec<DeviceId>, current: &Vec<DeviceId>) -> (evs: Vec<Event>)
    ensures
        evs@ == cycle_events(stored@, current@),
{
    let removed = difference(stored, current);
    let added = difference(current, stored);
    let mut evs: Vec<Event> = Vec::new();
    let mut i: usize = 0;
    while i < removed.len()
        invariant
            0 <= i <= removed@.len(),
            evs@.len() == i,
            forall|j: int| 0 <= j < i ==> evs@[j] == Event::Remove(removed@[j]),
        decreases removed@.len() - i,
    {
        evs.push(Event::Remove(removed[i]));
        i += 1;
    }
    let mut k: usize = 0;
    while k < added.len()
        invariant
            0 <= k <= added@.len(),
            evs@.len() == removed@.len() + k,
            forall|j: int| 0 <= j < removed@.len() ==> evs@[j] == Event::Remove(removed@[j]),
            forall|j: int| 0 <= j < k ==> evs@[removed@.len() + j] == Event::Add(added@[j]),
        decreases added@.len() - k,
    {
        evs.push(Event::Add(added[k]));
        k += 1;
    }
    proof {
        assert(evs@ =~= cycle_events(stored@, current@));
    }
    evs
}

/// A sequence holds an element exactly when its last element is that
/// element or the rest of it holds the element.
proof fn lemma_contains_split(a: Seq<DeviceId>, d: DeviceId)
    requires
        a.len() > 0,
    ensures
        a.contains(d) <==> (a.drop_last().contains(d) || a.last() == d),
{
    if a.contains(d) {
        let i = choose|i: int| 0 <= i < a.len() && a[i] == d;
        if i < a.len() - 1 {
            assert(a.drop_last()[i] == d);
        }
    }
    if a.drop_last().contains(d) {
        let i = choose|i: int| 0 <= i < a.drop_last().len() && a.drop_last()[i] == d;
        assert(a[i] == d);
    }
    if a.last() == d {
        assert(a[a.len() - 1] == d);
    }
}

/// The difference holds exactly the elements of `a` that `b` lacks.
pub proof fn lemma_seq_diff_contains(a: Seq<DeviceId>, b: Seq<DeviceId>, d: DeviceId)
    ensures
        seq_diff(a, b).contains(d) <==> (a.contains(d) && !b.contains(d)),
    decreases a.len(),
{
    broadcast use vstd::seq_lib::lemma_seq_empty_contains_nothing;
    broadcast use vstd::seq_lib::lemma_seq_contains_after_push;

    if a.len() == 0 {
        assert(!a.contains(d));
    } else {
        lemma_seq_diff_contains(a.drop_last(), b, d);
        lemma_contains_split(a, d);
    }
}

/// A difference taken from a duplicate-free sequence is duplicate-free.
pub proof fn lemma_seq_diff_no_duplicates(a: Seq<DeviceId>, b: Seq<DeviceId>)
    requires
        a.no_duplicates(),
    ensures
        seq_diff(a, b).no_duplicates(),
    decreases a.len(),
{
    if a.len() > 0 {
        let prefix = a.drop_last();
        let x = a.last();
        assert(prefix.no_duplicates()) by {
            assert(forall|i: int| 0 <= i < prefix.len() ==> prefix[i] == a[i]);
        }
        lemma_seq_diff_no_duplicates(prefix, b);
        if !b.contains(x) {
            let s = seq_diff(prefix, b);
            assert(!s.contains(x)) by {
                lemma_seq_diff_contains(prefix, b, x);
                if prefix.contains(x) {
                    let i = choose|i: int| 0 <= i < prefix.len() && prefix[i] == x;
                    assert(a[i] == a[a.len() - 1]);
                    assert(false);
                }
            }
            assert forall|i: int, j: int|
                0 <= i < s.push(x).len() && 0 <= j < s.push(x).len() && i != j implies s.push(x)[i]
                != s.push(x)[j] by {
                if i < s.len() && j < s.len() {
                    assert(s[i] != s[j]);
                } else if i < s.len() {
                    assert(s.contains(s[i]));
                } else if j < s.len() {
                    assert(s.contains(s[j]));
                }
            }
        }
    }
}

/// When every element of `a` also stands in `b`, the difference is empty.
pub proof fn lemma_seq_diff_empty(a: Seq<DeviceId>, b: Seq<DeviceId>)
    requires
        forall|d: DeviceId| a.contains(d) ==> b.contains(d),
    ensures
        seq_diff(a, b) == Seq::<DeviceId>::empty(),
    decreases a.len(),
{
    if a.len() == 0 {
        assert(seq_diff(a, b) =~= Seq::<DeviceId>::empty());
    } else {
        let prefix = a.drop_last();
        assert(a[a.len() - 1] == a.last());
        assert(a.contains(a.last()));
        assert forall|d: DeviceId| prefix.contains(d) implies b.contains(d) by {
            let i = choose|i: int| 0 <= i < prefix.len() && prefix[i] == d;
            assert(a[i] == d);
            assert(a.contains(d));
        }
        lemma_seq_diff_empty(prefix, b);
    }
}

/// Law: a cycle emits `Remove(d)` exactly for the devices in the stored set
/// and not in the snapshot, and `Add(d)` exactly for the devices in the
/// snapshot and not in the stored set.
pub proof fn lemma_cycle_events_membership(stored: Seq<DeviceId>, current: Seq<DeviceId>)
    ensures
        forall|d: DeviceId|
            #[trigger] cycle_events(stored, current).contains(Event::Remove(d)) <==> (
            stored.contains(d) && !current.contains(d)),
        forall|d: DeviceId|
            #[trigger] cycle_events(stored, current).contains(Event::Add(d)) <==> (
            current.contains(d) && !stored.contains(d)),
{
    broadcast use vstd::seq_lib::lemma_seq_concat_contains_all_elements;

    let removed = seq_diff(stored, current);
    let added = seq_diff(current, stored);
    assert forall|d: DeviceId|
        #[trigger] cycle_events(stored, current).contains(Event::Remove(d)) <==> (stored.contains(
            d,
        ) && !current.contains(d)) by {
        lemma_map_contains_remove(removed, d);
        lemma_map_contains_add(added, d);
        lemma_seq_diff_contains(stored, current, d);
    }
    assert forall|d: DeviceId|
        #[trigger] cycle_events(stored, current).contains(Event::Add(d)) <==> (current.contains(d)
            && !stored.contains(d)) by {
        lemma_map_contains_remove(removed, d);
        lemma_map_contains_add(added, d);
        lemma_seq_diff_contains(current, stored, d);
    }
}

/// Removal events mention exactly the identifiers they were made from, and
/// no addition.
proof fn lemma_map_contains_remove(ids: Seq<DeviceId>, d: DeviceId)
    ensures
        removal_events(ids).contains(Event::Remove(d)) <==> ids.contains(d),
        !removal_events(ids).contains(Event::Add(d)),
{
    let evs = removal_events(ids);
    if evs.contains(Event::Remove(d)) {
        let i = choose|i: int| 0 <= i < evs.len() && evs[i] == Event::Remove(d);
        assert(evs[i] == Event::Remove(ids[i]));
        assert(ids[i] == d);
    }
    if ids.contains(d) {
        let i = choose|i: int| 0 <= i < ids.len() && ids[i] == d;
        assert(evs[i] == Event::Remove(d));
    }
    if evs.contains(Event::Add(d)) {
        let i = choose|i: int| 0 <= i < evs.len() && evs[i] == Event::Add(d);
        assert(evs[i] == Event::Remove(ids[i]));
        assert(false);
    }
}

/// Addition events mention exactly the identifiers they were made from, and
/// no removal.
proof fn lemma_map_contains_add(ids: Seq<DeviceId>, d: DeviceId)
    ensures
        addition_events(ids).contains(Event::Add(d)) <==> ids.contains(d),
        !addition_events(ids).contains(Event::Remove(d)),
{
    let evs = addition_events(ids);
    if evs.contains(Event::Add(d)) {
        let i = choose|i: int| 0 <= i < evs.len() && evs[i] == Event::Add(d);
        assert(evs[i] == Event::Add(ids[i]));
        assert(ids[i] == d);
    }
    if ids.contains(d) {
        let i = choose|i: int| 0 <= i < ids.len() && ids[i] == d;
        assert(evs[i] == Event::Add(d));
    }
    if evs.contains(Event::Remove(d)) {
        let i = choose|i: int| 0 <= i < evs.len() && evs[i] == Event::Remove(d);
        assert(evs[i] == Event::Add(ids[i]));
        assert(false);
    }
}

/// Law: a cycle whose snapshot holds the same devices as the stored set
/// emits no events at all.
pub proof fn lemma_cycle_events_unchanged(stored: Seq<DeviceId>, current: Seq<DeviceId>)
    requires
        forall|d: DeviceId| stored.contains(d) <==> current.contains(d),
    ensures
        cycle_events(stored, current) == Seq::<Event>::empty(),
{
    lemma_seq_diff_empty(stored, current);
    lemma_seq_diff_empty(current, stored);
    assert(cycle_events(stored, current) =~= Seq::<Event>::empty());
}

/// Law: a cycle never emits the same event twice, never an `Add` for a
/// device already stored, and never a `Remove` for a device never stored.
pub proof fn lemma_cycle_events_no_duplicates(stored: Seq<DeviceId>, current: Seq<DeviceId>)
    requires
        stored.no_duplicates(),
        current.no_duplicates(),
    ensures
        cycle_events(stored, current).no_duplicates(),
{
    lemma_seq_diff_no_duplicates(stored, current);
    lemma_seq_diff_no_duplicates(current, stored);
    let removed = seq_diff(stored, current);
    let added = seq_diff(current, stored);
    let evs = cycle_events(stored, current);
    assert forall|i: int, j: int| 0 <= i < evs.len() && 0 <= j < evs.len() && i != j implies evs[i]
        != evs[j] by {
        assert(forall|k: int|
            0 <= k < removed.len() ==> evs[k] == Event::Remove(removed[k]));
        assert(forall|k: int|
            0 <= k < added.len() ==> evs[removed.len() + k] == Event::Add(added[k]));
    }
}

/// Law: within one cycle every removal comes before every addition, and the
/// cycle emits one event per changed device.
pub proof fn lemma_cycle_events_shape(stored: Seq<DeviceId>, current: Seq<DeviceId>)
    ensures
        cycle_events(stored, current).len() == seq_diff(stored, current).len() + seq_diff(
            current,
            stored,
        ).len(),
        forall|i: int|
            0 <= i < seq_diff(stored, current).len() ==> (#[trigger] cycle_events(
                stored,
                current,
            )[i]) == Event::Remove(seq_diff(stored, current)[i]),
        forall|i: int|
            0 <= i < seq_diff(current, stored).len() ==> (#[trigger] cycle_events(stored, current)[
                seq_diff(stored, current).len() + i]) == Event::Add(seq_diff(current, stored)[i]),
{
}

} // verus!
