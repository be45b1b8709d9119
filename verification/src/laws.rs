//! Laws of the service, proved once and for all over the spec-level model
//! in [`crate::model`]. Each law is stated exactly as the contracts of the
//! executable operations expose it.

use vstd::prelude::*;

use crate::model::NoteView;
use crate::model::StateView;
use crate::model::add_applied;
use crate::model::counter_after_add;
use crate::model::lookup;
use crate::model::option_add_applied;
use crate::model::paid_applied;
use crate::model::stored_entry;
use crate::model::swap_applied;

verus! {

/// An increment with a present optional argument behaves exactly as the
/// plain non-reporting increment on the carried value; an absent argument
/// changes nothing at all.
pub proof fn lemma_option_add_matches_add(s: StateView, n: u64)
    ensures
        option_add_applied(s, Option::Some(n)) == add_applied(s, n),
        option_add_applied(s, Option::None) == s,
{
}

/// Round trip: after a collection write at `key`, a read of `key` finds
/// exactly the stored form of the payload — the given sequence for a
/// present payload, the empty sequence (still a present entry) for an
/// absent one.
pub proof fn lemma_swap_then_lookup(s: StateView, key: u64, v: Option<Seq<u64>>)
    ensures
        lookup(swap_applied(s, key, v), key) == Option::Some(stored_entry(v)),
{
    assert(swap_applied(s, key, v).collection.contains_key(key));
}

/// A collection write at one key leaves what a read finds at every other
/// key untouched.
pub proof fn lemma_swap_preserves_other_keys(s: StateView, key: u64, v: Option<Seq<u64>>, other: u64)
    requires
        other != key,
    ensures
        lookup(swap_applied(s, key, v), other) == lookup(s, other),
{
}

/// The counter never decreases and never wraps: every counter-touching
/// transition either adds the full amount or leaves the counter exactly as
/// it was.
pub proof fn lemma_counter_never_decreases(s: StateView, add: u64, opt: Option<u64>)
    ensures
        add_applied(s, add).counter >= s.counter,
        option_add_applied(s, opt).counter >= s.counter,
        counter_after_add(s.counter, add) == s.counter || counter_after_add(s.counter, add)
            == s.counter + add,
{
}

/// The notification log is append-only: every transition leaves the prior
/// log in place and appends exactly the record describing it — and none at
/// all for an absent optional increment.
pub proof fn lemma_log_append_only(
    s: StateView,
    add: u64,
    key: u64,
    v: Option<Seq<u64>>,
    amount: u128,
)
    ensures
        add_applied(s, add).log == s.log.push(
            NoteView::IntStorageChanged { current: add_applied(s, add).counter },
        ),
        swap_applied(s, key, v).log == s.log.push(NoteView::MapStorageChanged { key, current: v }),
        paid_applied(s, amount).log == s.log.push(NoteView::PaidFromContract { amount }),
        option_add_applied(s, Option::None).log == s.log,
{
}

/// Every transition touches at most one of the two persisted fields: an
/// increment leaves the collection alone, a collection write leaves the
/// counter alone, and a value-bearing call leaves both alone.
pub proof fn lemma_one_field_per_transition(
    s: StateView,
    add: u64,
    key: u64,
    v: Option<Seq<u64>>,
    amount: u128,
)
    ensures
        add_applied(s, add).collection == s.collection,
        swap_applied(s, key, v).counter == s.counter,
        paid_applied(s, amount).counter == s.counter,
        paid_applied(s, amount).collection == s.collection,
{
}

} // verus!
