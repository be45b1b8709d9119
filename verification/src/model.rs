//! The mathematical model of the service: a spec-level image of its state
//! and one transition function per state-touching operation. The contracts
//! of the executable operations in [`crate::contract`] are stated against
//! these functions, and the laws in [`crate::laws`] are proved of them.

use vstd::prelude::*;

verus! {

/// Spec-level image of one emitted notification.
pub enum NoteView {
    /// The counter was written; carries the value now stored.
    IntStorageChanged { current: u64 },
    /// A collection entry was written; carries the key and the payload as
    /// the caller gave it (`None` is distinct from an empty sequence).
    MapStorageChanged { key: u64, current: Option<Seq<u64>> },
    /// A value-bearing call was received; carries the attached amount.
    PaidFromContract { amount: u128 },
}

/// Spec-level image of the whole service state: the counter, the keyed
/// collection, and the ordered log of notifications emitted so far.
#[verifier::ext_equal]
pub struct StateView {
    pub counter: u64,
    pub collection: Map<u64, Seq<u64>>,
    pub log: Seq<NoteView>,
}

/// The state a fresh service instance starts in: counter one, empty
/// collection, nothing emitted yet.
pub open spec fn initial_state() -> StateView {
    StateView { counter: 1, collection: Map::empty(), log: Seq::empty() }
}

/// The sequence a collection write stores: an absent payload stores the
/// empty sequence, a present payload is stored as given.
pub open spec fn stored_entry(v: Option<Seq<u64>>) -> Seq<u64> {
    match v {
        Option::None => Seq::empty(),
        Option::Some(s) => s,
    }
}

/// What a collection read finds at `key`: an absent key is distinct from a
/// key holding the empty sequence.
pub open spec fn lookup(s: StateView, key: u64) -> Option<Seq<u64>> {
    if s.collection.contains_key(key) {
        Option::Some(s.collection[key])
    } else {
        Option::None
    }
}

/// The counter after a checked increment: the sum if it is representable,
/// the old value unchanged on overflow.
pub open spec fn counter_after_add(counter: u64, add: u64) -> u64 {
    if counter + add <= u64::MAX {
        (counter + add) as u64
    } else {
        counter
    }
}

/// Whether an increment by `add` would overflow the counter.
pub open spec fn add_overflows(s: StateView, add: u64) -> bool {
    s.counter + add > u64::MAX
}

/// State after a non-reporting increment: the counter is clamped to its old
/// value on overflow, and a notification carrying the resulting value is
/// appended either way.
pub open spec fn add_applied(s: StateView, add: u64) -> StateView {
    let c = counter_after_add(s.counter, add);
    StateView { counter: c, log: s.log.push(NoteView::IntStorageChanged { current: c }), ..s }
}

/// State after an increment with an optional argument: an absent argument
/// changes nothing and emits nothing; a present one acts as a plain
/// non-reporting increment.
pub open spec fn option_add_applied(s: StateView, add: Option<u64>) -> StateView {
    match add {
        Option::None => s,
        Option::Some(n) => add_applied(s, n),
    }
}

/// State after a collection write: the entry at `key` is replaced wholesale
/// by the stored form of the payload, and a notification carrying the key
/// and the payload as given is appended.
pub open spec fn swap_applied(s: StateView, key: u64, v: Option<Seq<u64>>) -> StateView {
    StateView {
        collection: s.collection.insert(key, stored_entry(v)),
        log: s.log.push(NoteView::MapStorageChanged { key, current: v }),
        ..s
    }
}

/// State after a successful value-bearing call: only a notification carrying
/// the attached amount is appended.
pub open spec fn paid_applied(s: StateView, amount: u128) -> StateView {
    StateView { log: s.log.push(NoteView::PaidFromContract { amount }), ..s }
}

} // verus!
