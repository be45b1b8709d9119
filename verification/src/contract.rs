//! The executable service. Every operation is specified against the
//! spec-level state image in [`crate::model`]: the counter, the keyed
//! collection, and the append-only notification log.

use std::collections::HashMap;
use vstd::prelude::*;

use crate::model::NoteView;
use crate::model::StateView;
use crate::model::add_applied;
use crate::model::add_overflows;
use crate::model::initial_state;
use crate::model::lookup;
use crate::model::option_add_applied;
use crate::model::paid_applied;
use crate::model::stored_entry;
use crate::model::swap_applied;

verus! {

broadcast use vstd::std_specs::hash::group_hash_axioms;

/// The one typed failure: the operation's precondition was violated and no
/// state change occurred.
#[derive(Debug, PartialEq, Eq, Clone)]
pub enum Error {
    TestError,
}

/// A sum type with an optional payload, crossing the call boundary both as
/// an argument and inside a notification. An absent payload is observably
/// distinct from a present but empty one.
#[derive(Debug, PartialEq, Eq, Clone)]
pub enum CustomOption {
    Absent,
    Present(Vec<u64>),
}

impl View for CustomOption {
    type V = Option<Seq<u64>>;

    open spec fn view(&self) -> Option<Seq<u64>> {
        match self {
            CustomOption::Absent => Option::None,
            CustomOption::Present(v) => Option::Some(v@),
        }
    }
}

/// Notification: the counter was written; carries the value now stored.
#[derive(Debug, PartialEq, Eq, Clone)]
pub struct IntStorageChanged {
    pub current: u64,
}

impl View for IntStorageChanged {
    type V = NoteView;

    open spec fn view(&self) -> NoteView {
        NoteView::IntStorageChanged { current: self.current }
    }
}

/// Notification: a collection entry was written; carries the key and the
/// payload exactly as the caller gave it.
#[derive(Debug, PartialEq, Eq, Clone)]
pub struct MapStorageChanged {
    pub key: u64,
    pub current: CustomOption,
}

impl View for MapStorageChanged {
    type V = NoteView;

    open spec fn view(&self) -> NoteView {
        NoteView::MapStorageChanged { key: self.key, current: self.current@ }
    }
}

/// Notification: a value-bearing call was received; carries the attached
/// amount.
#[derive(Debug, PartialEq, Eq, Clone)]
pub struct PaidFromContract {
    pub amount: u128,
}

impl View for PaidFromContract {
    type V = NoteView;

    open spec fn view(&self) -> NoteView {
        NoteView::PaidFromContract { amount: self.amount }
    }
}

/// One record of the service's notification log.
#[derive(Debug, PartialEq, Eq, Clone)]
pub enum Notification {
    IntStorageChanged(IntStorageChanged),
    MapStorageChanged(MapStorageChanged),
    PaidFromContract(PaidFromContract),
}

impl View for Notification {
    type V = NoteView;

    open spec fn view(&self) -> NoteView {
        match self {
            Notification::IntStorageChanged(e) => e@,
            Notification::MapStorageChanged(e) => e@,
            Notification::PaidFromContract(e) => e@,
        }
    }
}

/// The spec-level image of a notification log.
pub open spec fn log_view(notes: Seq<Notification>) -> Seq<NoteView> {
    notes.map_values(|n: Notification| n@)
}

/// The spec-level image of the keyed collection.
pub open spec fn collection_view(m: Map<u64, Vec<u64>>) -> Map<u64, Seq<u64>> {
    m.map_values(|v: Vec<u64>| v@)
}

/// The service: a counter, a keyed collection of sequences, and the log of
/// notifications emitted so far. The host reads the log back through
/// [`TestContract::notifications`]; the service only appends to it.
pub struct TestContract {
    int_storage: u64,
    map_storage: HashMap<u64, Vec<u64>>,
    notifications: Vec<Notification>,
}

impl View for TestContract {
    type V = StateView;

    closed spec fn view(&self) -> StateView {
        StateView {
            counter: self.int_storage,
            collection: collection_view(self.map_storage@),
            log: log_view(self.notifications@),
        }
    }
}

/// Copies a borrowed vector of values into a fresh owned one.
fn copy_values(v: &Vec<u64>) -> (r: Vec<u64>)
    ensures
        r@ == v@,
{
    let mut r: Vec<u64> = Vec::new();
    let mut i: usize = 0;
    while i < v.len()
        invariant
            i <= v.len(),
            r@ == v@.subrange(0, i as int),
        decreases v.len() - i,
    {
        r.push(v[i]);
        i = i + 1;
        proof {
            assert(r@ =~= v@.subrange(0, i as int));
        }
    }
    proof {
        assert(r@ =~= v@);
    }
    r
}

impl TestContract {
    /// The zero-argument constructor: counter one, empty collection, empty
    /// notification log.
    pub fn new() -> (r: TestContract)
        ensures
            r@ == initial_state(),
            r@.counter == 1,
    {
        let c = TestContract {
            int_storage: 1,
            map_storage: HashMap::new(),
            notifications: Vec::new(),
        };
        proof {
            assert(c@ =~= initial_state());
        }
        c
    }

    /// Pure echo: always returns the literal `"pong"`.
    pub fn ping(&self) -> (r: String)
        ensures
            r@ == "pong"@,
    {
        "pong".to_owned()
    }

    /// Pure echo: returns the given string unchanged.
    pub fn echo(&self, what: String) -> (r: String)
        ensures
            r@ == what@,
    {
        what
    }

    /// Pure echo: returns the given value unchanged.
    pub fn echo_int(&self, what: u64) -> (r: u64)
        ensures
            r == what,
    {
        what
    }

    /// Pure echo: returns the given value unchanged.
    pub fn echo_128(&self, what: u128) -> (r: u128)
        ensures
            r == what,
    {
        what
    }

    /// Scalar read: returns the counter as-is.
    pub fn get_int_storage(&self) -> (r: u64)
        ensures
            r == self@.counter,
    {
        self.int_storage
    }

    /// The host's window on the notification log: every record emitted so
    /// far, oldest first.
    pub fn notifications(&self) -> (r: &Vec<Notification>)
        ensures
            log_view(r@) == self@.log,
            r@.len() == self@.log.len(),
            forall|i: int| 0 <= i < r@.len() ==> r@[i]@ == self@.log[i],
    {
        &self.notifications
    }

    /// Non-reporting increment: adds `add` to the counter with checked
    /// arithmetic; on overflow the counter is left unchanged. Either way the
    /// resulting counter value is returned and a notification carrying it is
    /// appended.
    pub fn add_storage(&mut self, add: u64) -> (r: u64)
        ensures
            final(self)@ == add_applied(old(self)@, add),
            r == final(self)@.counter,
            !add_overflows(old(self)@, add) ==> r == old(self)@.counter + add,
            add_overflows(old(self)@, add) ==> r == old(self)@.counter,
    {
        let current = self.int_storage;
        self.int_storage = match current.checked_add(add) {
            Some(n) => n,
            None => current,
        };
        let note = IntStorageChanged { current: self.int_storage };
        self.notifications.push(Notification::IntStorageChanged(note));
        proof {
            assert(self@ =~= add_applied(old(self)@, add));
        }
        self.int_storage
    }

    /// Non-reporting increment over the plain sum of two arguments; the sum
    /// itself uses ordinary addition, so the caller must keep it
    /// representable.
    pub fn add_storage_two_args(&mut self, add1: u64, add2: u64) -> (r: u64)
        requires
            add1 + add2 <= u64::MAX,
        ensures
            final(self)@ == add_applied(old(self)@, (add1 + add2) as u64),
            r == final(self)@.counter,
    {
        self.add_storage(add1 + add2)
    }

    /// Non-reporting increment over the plain sum of three arguments; the
    /// sum itself uses ordinary addition, so the caller must keep it
    /// representable.
    pub fn add_storage_three_args(&mut self, add1: u64, add2: u64, add3: u64) -> (r: u64)
        requires
            add1 + add2 + add3 <= u64::MAX,
        ensures
            final(self)@ == add_applied(old(self)@, (add1 + add2 + add3) as u64),
            r == final(self)@.counter,
    {
        self.add_storage(add1 + add2 + add3)
    }

    /// Reporting increment: on overflow the counter is left untouched,
    /// nothing is emitted, and the typed failure is returned; otherwise the
    /// counter is updated, a notification carrying the new value is
    /// appended, and the new value is returned.
    pub fn add_storage_result(&mut self, add: u64) -> (r: Result<u64, Error>)
        ensures
            !add_overflows(old(self)@, add) ==> r == Ok::<u64, Error>(
                (old(self)@.counter + add) as u64,
            ) && final(self)@ == add_applied(old(self)@, add),
            add_overflows(old(self)@, add) ==> r == Err::<u64, Error>(Error::TestError)
                && final(self)@ == old(self)@,
    {
        let current = self.int_storage;
        match current.checked_add(add) {
            None => Err(Error::TestError),
            Some(n) => {
                self.int_storage = n;
                let note = IntStorageChanged { current: n };
                self.notifications.push(Notification::IntStorageChanged(note));
                proof {
                    assert(self@ =~= add_applied(old(self)@, add));
                }
                Ok(n)
            },
        }
    }

    /// Increment with an optional argument: an absent argument returns the
    /// counter unchanged and emits nothing; a present one behaves exactly as
    /// [`TestContract::add_storage`] on the carried value.
    pub fn add_storage_option(&mut self, add: Option<u64>) -> (r: u64)
        ensures
            final(self)@ == option_add_applied(old(self)@, add),
            r == final(self)@.counter,
    {
        match add {
            None => self.int_storage,
            Some(n) => self.add_storage(n),
        }
    }

    /// Collection read, total: an absent key yields the empty sequence,
    /// never a failure.
    pub fn get_map_storage(&self, key: u64) -> (r: Vec<u64>)
        ensures
            r@ == stored_entry(lookup(self@, key)),
    {
        match self.map_storage.get(&key) {
            Some(v) => copy_values(v),
            None => Vec::new(),
        }
    }

    /// Collection read, reporting: an absent key yields the typed failure, a
    /// present one its entry.
    pub fn get_map_storage_result(&self, key: u64) -> (r: Result<Vec<u64>, Error>)
        ensures
            match r {
                Ok(v) => lookup(self@, key) == Option::Some(v@),
                Err(e) => e == Error::TestError && lookup(self@, key) is None,
            },
    {
        match self.map_storage.get(&key) {
            Some(v) => Ok(copy_values(v)),
            None => Err(Error::TestError),
        }
    }

    /// Collection read, optional: an absent key yields an explicit nothing,
    /// distinct from a present but empty entry.
    pub fn get_map_storage_option(&self, key: u64) -> (r: Option<Vec<u64>>)
        ensures
            match r {
                Some(v) => lookup(self@, key) == Option::Some(v@),
                None => lookup(self@, key) is None,
            },
    {
        match self.map_storage.get(&key) {
            Some(v) => Some(copy_values(v)),
            None => None,
        }
    }

    /// Collection write: replaces the entry at `key` wholesale — an absent
    /// payload stores the empty sequence — and appends a notification
    /// carrying the key and the payload as given. Never fails.
    pub fn swap_map_storage(&mut self, key: u64, vec: CustomOption) -> (r: Result<(), Error>)
        ensures
            r == Ok::<(), Error>(()),
            final(self)@ == swap_applied(old(self)@, key, vec@),
    {
        let stored: Vec<u64> = match &vec {
            CustomOption::Absent => Vec::new(),
            CustomOption::Present(v) => copy_values(v),
        };
        self.map_storage.insert(key, stored);
        let note = MapStorageChanged { key, current: vec };
        self.notifications.push(Notification::MapStorageChanged(note));
        proof {
            assert(self@.collection =~= swap_applied(old(self)@, key, note.current@).collection);
            assert(self@ =~= swap_applied(old(self)@, key, note.current@));
        }
        Ok(())
    }

    /// Value-bearing echo: `transferred` is the attached amount the host's
    /// ledger exposes for this call. It is returned unchanged and a
    /// notification carrying it is appended; no other state changes.
    pub fn echo_payable(&mut self, transferred: u128) -> (r: u128)
        ensures
            r == transferred,
            final(self)@ == paid_applied(old(self)@, transferred),
    {
        let note = PaidFromContract { amount: transferred };
        self.notifications.push(Notification::PaidFromContract(note));
        proof {
            assert(self@ =~= paid_applied(old(self)@, transferred));
        }
        transferred
    }

    /// Value-bearing comparison: `transferred` is the attached amount the
    /// host's ledger exposes for this call. Strictly less than `compare`
    /// fails with the typed error and changes nothing; otherwise a
    /// notification carrying the amount is appended and success is returned.
    pub fn result_payable(&mut self, compare: u128, transferred: u128) -> (r: Result<(), Error>)
        ensures
            transferred < compare ==> r == Err::<(), Error>(Error::TestError) && final(self)@
                == old(self)@,
            transferred >= compare ==> r == Ok::<(), Error>(()) && final(self)@ == paid_applied(
                old(self)@,
                transferred,
            ),
    {
        if transferred < compare {
            return Err(Error::TestError);
        }
        let note = PaidFromContract { amount: transferred };
        self.notifications.push(Notification::PaidFromContract(note));
        proof {
            assert(self@ =~= paid_applied(old(self)@, transferred));
        }
        Ok(())
    }
}

} // verus!
