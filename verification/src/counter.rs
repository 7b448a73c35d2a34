//! The guarded counter: one optional 32-bit value, mutated only through two
//! operations open to authenticated callers, with a notification event
//! emitted when a value is stored.

use vstd::prelude::*;

verus! {

/// An account identifier of the host runtime, reduced to a plain integer.
pub type AccountId = u64;

/// The origin of a dispatched call: either a signed (authenticated) account
/// or an unauthenticated source.
#[derive(Clone, Copy, PartialEq, Eq, Structural, Debug)]
pub enum Origin {
    Signed(AccountId),
    Unsigned,
}

/// The counter's state: no value has been stored yet, or a value is held.
#[derive(Clone, Copy, PartialEq, Eq, Structural, Debug)]
pub enum CounterState {
    Uninitialized,
    Initialized(u32),
}

/// A notification emitted to external subscribers.
#[derive(Clone, Copy, PartialEq, Eq, Structural, Debug)]
pub enum Event {
    SomethingStored { something: u32, who: AccountId },
}

/// A typed failure of a dispatched operation.
#[derive(Clone, Copy, PartialEq, Eq, Structural, Debug)]
pub enum Error {
    /// The caller was not an authenticated account.
    Unauthenticated,
    /// No value has been stored yet.
    NoneValue,
    /// Incrementing would leave the 32-bit range.
    StorageOverflow,
}

/// The module's persistent state: the stored value and the events deposited
/// so far. The host passes it explicitly to each operation and serializes
/// all mutations.
pub struct Pallet {
    pub something: CounterState,
    pub events: Vec<Event>,
}

/// What storing `value` leaves behind, whatever held before.
pub open spec fn spec_store(state: CounterState, value: u32) -> CounterState {
    CounterState::Initialized(value)
}

/// What incrementing leaves behind: unchanged on failure, one more on success.
pub open spec fn spec_increment(state: CounterState) -> CounterState {
    match state {
        CounterState::Uninitialized => CounterState::Uninitialized,
        CounterState::Initialized(v) => if v < u32::MAX {
            CounterState::Initialized((v + 1) as u32)
        } else {
            CounterState::Initialized(v)
        },
    }
}

/// The result incrementing reports for a given prior state.
pub open spec fn spec_increment_result(state: CounterState) -> Result<(), Error> {
    match state {
        CounterState::Uninitialized => Err(Error::NoneValue),
        CounterState::Initialized(v) => if v < u32::MAX {
            Ok(())
        } else {
            Err(Error::StorageOverflow)
        },
    }
}

/// Returns the calling account if the origin is authenticated.
///
/// Relied on by both operations as their authentication gate.
pub fn ensure_signed(origin: Origin) -> (r: Result<AccountId, Error>)
    ensures
        origin matches Origin::Signed(who) ==> r == Ok::<AccountId, Error>(who),
        origin is Unsigned ==> r == Err::<AccountId, Error>(Error::Unauthenticated),
{
    match origin {
        Origin::Signed(who) => Ok(who),
        Origin::Unsigned => Err(Error::Unauthenticated),
    }
}

impl Pallet {
    /// A fresh module state: no value stored, no events deposited.
    pub fn new() -> (r: Pallet)
        ensures
            r.something == CounterState::Uninitialized,
            r.events@ == Seq::<Event>::empty(),
    {
        Pallet { something: CounterState::Uninitialized, events: Vec::new() }
    }

    /// Stores `something` unconditionally for an authenticated caller and
    /// deposits a `SomethingStored` event; rejects any other caller without
    /// touching state.
    pub fn do_something(&mut self, origin: Origin, something: u32) -> (r: Result<(), Error>)
        ensures
            origin matches Origin::Signed(who) ==> {
                &&& r == Ok::<(), Error>(())
                &&& final(self).something == spec_store(old(self).something, something)
                &&& final(self).events@ == old(self).events@.push(
                    Event::SomethingStored { something, who })
            },
            origin is Unsigned ==> {
                &&& r == Err::<(), Error>(Error::Unauthenticated)
                &&& final(self).something == old(self).something
                &&& final(self).events@ == old(self).events@
            },
    {
        let who = match ensure_signed(origin) {
            Ok(who) => who,
            Err(e) => { return Err(e); },
        };
        self.something = CounterState::Initialized(something);
        self.events.push(Event::SomethingStored { something, who });
        Ok(())
    }

    /// Increments the stored value by one for an authenticated caller.
    /// Fails with `NoneValue` when nothing is stored yet and with
    /// `StorageOverflow` when the value is already at the 32-bit maximum;
    /// every failure leaves the state unchanged, and no event is deposited
    /// in any case.
    pub fn cause_error(&mut self, origin: Origin) -> (r: Result<(), Error>)
        ensures
            final(self).events@ == old(self).events@,
            origin is Signed ==> {
                &&& r == spec_increment_result(old(self).something)
                &&& final(self).something == spec_increment(old(self).something)
            },
            origin is Unsigned ==> {
                &&& r == Err::<(), Error>(Error::Unauthenticated)
                &&& final(self).something == old(self).something
            },
    {
        let _who = match ensure_signed(origin) {
            Ok(who) => who,
            Err(e) => { return Err(e); },
        };
        match self.something {
            CounterState::Uninitialized => Err(Error::NoneValue),
            CounterState::Initialized(old_value) => {
                match old_value.checked_add(1) {
                    None => Err(Error::StorageOverflow),
                    Some(new_value) => {
                        self.something = CounterState::Initialized(new_value);
                        Ok(())
                    },
                }
            },
        }
    }
}

/// Storing a value always yields `Initialized` with exactly that value,
/// regardless of the prior state.
pub proof fn lemma_store_overwrites(state: CounterState, value: u32)
    ensures
        spec_store(state, value) == CounterState::Initialized(value),
{
}

/// Incrementing an uninitialized counter fails with `NoneValue` and leaves
/// the state uninitialized.
pub proof fn lemma_increment_uninitialized()
    ensures
        spec_increment_result(CounterState::Uninitialized) == Err::<(), Error>(Error::NoneValue),
        spec_increment(CounterState::Uninitialized) == CounterState::Uninitialized,
{
}

/// Storing any value below the 32-bit maximum and then incrementing
/// succeeds and yields the stored value plus one.
pub proof fn lemma_store_then_increment(state: CounterState, value: u32)
    requires
        value < u32::MAX,
    ensures
        spec_increment_result(spec_store(state, value)) == Ok::<(), Error>(()),
        spec_increment(spec_store(state, value)) == CounterState::Initialized((value + 1) as u32),
{
}

/// Storing the 32-bit maximum and then incrementing fails with
/// `StorageOverflow` and leaves the stored value unchanged.
pub proof fn lemma_store_max_then_increment(state: CounterState)
    ensures
        spec_increment_result(spec_store(state, u32::MAX)) == Err::<(), Error>(Error::StorageOverflow),
        spec_increment(spec_store(state, u32::MAX)) == CounterState::Initialized(u32::MAX),
{
}

} // verus!
