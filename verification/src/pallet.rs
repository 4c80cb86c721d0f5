//! The ledger-state store, the two state machines that mutate it, the event
//! log, and the dispatcher that routes an authorized call to its handler.
//!
//! Every operation is a single atomic unit: if authorization or a business
//! rule fails, the store and the event log are left exactly as before the
//! call, and the caller sees a named error.

use vstd::prelude::*;

use crate::booking::{fresh_booking, BookingConfig, BookingStatus};
use crate::origin::{ensure_signed, signer_of, AccountId, Origin};

verus! {

/// Errors surfaced to callers. Each aborts the triggering call with no
/// observable effect on the store or the event log.
#[derive(Clone, Copy, Debug, PartialEq, Eq, Structural)]
pub enum Error {
    /// `increment_counter` found the counter slot absent.
    NoneValue,
    /// `increment_counter` would wrap the counter past its maximum.
    StorageOverflow,
    /// The origin carries no valid signed identity.
    Unauthorized,
}

/// The immutable record of one call's effect, appended once per successful
/// call that defines one and never mutated or removed.
#[derive(Clone, Copy, Debug, PartialEq, Eq, Structural)]
pub enum Event {
    /// A booking was installed: `(start, end, status)` of the stored record.
    CreateBooking(u64, u64, BookingStatus),
    /// The counter was set: `(value, caller)`.
    SomethingStored(u32, AccountId),
}

/// A decoded request to execute one operation; the closed set the dispatcher
/// matches over.
#[derive(Clone, Copy, Debug, PartialEq, Eq, Structural)]
pub enum Call {
    CreateBooking,
    CompleteBooking,
    SetCounter(u32),
    IncrementCounter,
}

/// The mathematical state of the module: the two persisted singleton slots,
/// the event log, and the chain height the module currently sees.
#[verifier::ext_equal]
pub struct StoreView {
    pub counter: Option<u32>,
    pub booking: Option<BookingConfig>,
    pub events: Seq<Event>,
    pub height: u64,
}

/// The state a node starts from: both slots absent, no events, height zero.
pub open spec fn initial_store() -> StoreView {
    StoreView { counter: None, booking: None, events: Seq::empty(), height: 0 }
}

/// What `create_booking` does to the store: for a signed origin, install a
/// fresh record at the current height — overwriting any existing record,
/// whatever its status — and append the one event; otherwise reject untouched.
pub open spec fn create_booking_tr(s: StoreView, origin: Origin) -> (StoreView, Result<(), Error>) {
    match signer_of(origin) {
        Some(_) => {
            let b = fresh_booking(s.height);
            (
                StoreView {
                    booking: Some(b),
                    events: s.events.push(Event::CreateBooking(b.start, b.end, b.status)),
                    ..s
                },
                Ok(()),
            )
        },
        None => (s, Err(Error::Unauthorized)),
    }
}

/// What `complete_booking` does to the store: for a signed origin, set the
/// existing record's status to `Completed` in place, whatever its prior
/// status; with no record it is a silent no-op. No event either way.
pub open spec fn complete_booking_tr(s: StoreView, origin: Origin) -> (StoreView, Result<(), Error>) {
    match signer_of(origin) {
        Some(_) => match s.booking {
            Some(b) => (
                StoreView { booking: Some(BookingConfig { status: BookingStatus::Completed, ..b }), ..s },
                Ok(()),
            ),
            None => (s, Ok(())),
        },
        None => (s, Err(Error::Unauthorized)),
    }
}

/// What `set_counter` does to the store: for a signed origin, overwrite the
/// counter slot unconditionally and append the one event carrying the stored
/// value and the caller.
pub open spec fn set_counter_tr(s: StoreView, origin: Origin, value: u32) -> (
    StoreView,
    Result<(), Error>,
) {
    match signer_of(origin) {
        Some(who) => (
            StoreView {
                counter: Some(value),
                events: s.events.push(Event::SomethingStored(value, who)),
                ..s
            },
            Ok(()),
        ),
        None => (s, Err(Error::Unauthorized)),
    }
}

/// What `increment_counter` does to the store: for a signed origin, fail
/// `NoneValue` on an absent slot, fail `StorageOverflow` at the maximum, and
/// otherwise persist and return the incremented value. No event is defined.
pub open spec fn increment_counter_tr(s: StoreView, origin: Origin) -> (
    StoreView,
    Result<u32, Error>,
) {
    match signer_of(origin) {
        Some(_) => match s.counter {
            Some(c) => if c < u32::MAX {
                (StoreView { counter: Some((c + 1) as u32), ..s }, Ok((c + 1) as u32))
            } else {
                (s, Err(Error::StorageOverflow))
            },
            None => (s, Err(Error::NoneValue)),
        },
        None => (s, Err(Error::Unauthorized)),
    }
}

/// What one ordered call does to the store, by operation.
pub open spec fn dispatch_tr(s: StoreView, origin: Origin, call: Call) -> (
    StoreView,
    Result<(), Error>,
) {
    match call {
        Call::CreateBooking => create_booking_tr(s, origin),
        Call::CompleteBooking => complete_booking_tr(s, origin),
        Call::SetCounter(value) => set_counter_tr(s, origin, value),
        Call::IncrementCounter => {
            let (post, r) = increment_counter_tr(s, origin);
            (
                post,
                match r {
                    Ok(_) => Ok(()),
                    Err(e) => Err(e),
                },
            )
        },
    }
}

/// The ledger-state context: the single source of truth for the two persisted
/// slots, the append-only event log, and the height the host last announced.
/// It is mutated only through the operations below, one call at a time.
pub struct Pallet {
    something: Option<u32>,
    booking: Option<BookingConfig>,
    events: Vec<Event>,
    height: u64,
}

impl View for Pallet {
    type V = StoreView;

    closed spec fn view(&self) -> StoreView {
        StoreView {
            counter: self.something,
            booking: self.booking,
            events: self.events@,
            height: self.height,
        }
    }
}

impl Pallet {
    /// A fresh store: both slots absent, no events, height zero.
    pub fn new() -> (p: Pallet)
        ensures
            p@ == initial_store(),
    {
        let p = Pallet { something: None, booking: None, events: Vec::new(), height: 0 };
        proof {
            assert(p@ =~= initial_store());
        }
        p
    }

    /// The host announces the chain height the next calls execute at.
    pub fn set_height(&mut self, height: u64)
        ensures
            final(self)@ == (StoreView { height, ..old(self)@ }),
    {
        self.height = height;
        proof {
            assert(self@ =~= (StoreView { height, ..old(self)@ }));
        }
    }

    /// The counter slot, as persisted.
    pub fn something(&self) -> (r: Option<u32>)
        ensures
            r == self@.counter,
    {
        self.something
    }

    /// The booking slot, as persisted.
    pub fn booking(&self) -> (r: Option<BookingConfig>)
        ensures
            r == self@.booking,
    {
        self.booking
    }

    /// The event log, in call-inclusion order.
    pub fn events(&self) -> (r: &Vec<Event>)
        ensures
            r@ == self@.events,
    {
        &self.events
    }

    /// The height the host last announced.
    pub fn height(&self) -> (r: u64)
        ensures
            r == self@.height,
    {
        self.height
    }

    /// Install a fresh booking at the current height, overwriting any existing
    /// record, and append the `CreateBooking` event. Never fails once signed.
    pub fn create_booking(&mut self, origin: Origin) -> (r: Result<(), Error>)
        ensures
            (final(self)@, r) == create_booking_tr(old(self)@, origin),
    {
        let _caller = match ensure_signed(origin) {
            Ok(who) => who,
            Err(e) => {
                return Err(e);
            },
        };
        let time = self.height;
        let new_booking = BookingConfig::new_at(time);
        self.booking = Some(new_booking);
        self.events.push(Event::CreateBooking(new_booking.start, new_booking.end, new_booking.status));
        proof {
            assert(self@ =~= create_booking_tr(old(self)@, origin).0);
        }
        Ok(())
    }

    /// Set the existing booking's status to `Completed` in place, whatever its
    /// prior status; a silent no-op if no record exists. Appends no event.
    pub fn complete_booking(&mut self, origin: Origin) -> (r: Result<(), Error>)
        ensures
            (final(self)@, r) == complete_booking_tr(old(self)@, origin),
    {
        match ensure_signed(origin) {
            Ok(_) => {},
            Err(e) => {
                return Err(e);
            },
        };
        match &mut self.booking {
            Some(config) => {
                config.status = BookingStatus::Completed;
            },
            None => {},
        }
        proof {
            assert(self@ =~= complete_booking_tr(old(self)@, origin).0);
        }
        Ok(())
    }

    /// Overwrite the counter slot with `value` and append the
    /// `SomethingStored` event. Never fails once signed.
    pub fn set_counter(&mut self, origin: Origin, value: u32) -> (r: Result<(), Error>)
        ensures
            (final(self)@, r) == set_counter_tr(old(self)@, origin, value),
    {
        let who = match ensure_signed(origin) {
            Ok(who) => who,
            Err(e) => {
                return Err(e);
            },
        };
        self.something = Some(value);
        self.events.push(Event::SomethingStored(value, who));
        proof {
            assert(self@ =~= set_counter_tr(old(self)@, origin, value).0);
        }
        Ok(())
    }

    /// Add one to the counter with checked arithmetic, returning the new
    /// value: `NoneValue` if the slot is absent, `StorageOverflow` if the
    /// addition would wrap; the store is untouched on either error.
    pub fn increment_counter(&mut self, origin: Origin) -> (r: Result<u32, Error>)
        ensures
            (final(self)@, r) == increment_counter_tr(old(self)@, origin),
    {
        match ensure_signed(origin) {
            Ok(_) => {},
            Err(e) => {
                return Err(e);
            },
        };
        match self.something {
            None => Err(Error::NoneValue),
            Some(old_value) => {
                if old_value < u32::MAX {
                    let new_value = old_value + 1;
                    self.something = Some(new_value);
                    proof {
                        assert(self@ =~= increment_counter_tr(old(self)@, origin).0);
                    }
                    Ok(new_value)
                } else {
                    Err(Error::StorageOverflow)
                }
            },
        }
    }

    /// Route one ordered call to its handler: the single entry point of the
    /// dispatcher, exhaustive over the closed operation set.
    pub fn dispatch(&mut self, origin: Origin, call: Call) -> (r: Result<(), Error>)
        ensures
            (final(self)@, r) == dispatch_tr(old(self)@, origin, call),
    {
        match call {
            Call::CreateBooking => self.create_booking(origin),
            Call::CompleteBooking => self.complete_booking(origin),
            Call::SetCounter(value) => self.set_counter(origin, value),
            Call::IncrementCounter => match self.increment_counter(origin) {
                Ok(_) => Ok(()),
                Err(e) => Err(e),
            },
        }
    }
}

} // verus!
