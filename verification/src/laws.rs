//! The module-wide laws, each proved over the same transition functions the
//! operations' contracts are stated with.

use vstd::prelude::*;

use crate::booking::{BookingConfig, BookingStatus, BOOKING_DURATION};
use crate::offchain::{call_payload, Config, OffchainIdentity, SignatureScheme};
use crate::origin::{signer_of, AccountId, Origin};
use crate::pallet::{
    complete_booking_tr, create_booking_tr, dispatch_tr, increment_counter_tr, set_counter_tr,
    Call, Error, Event, StoreView,
};

verus! {

/// An origin without a valid signer is rejected by every operation: the call
/// fails `Unauthorized` and the store — both slots, the event log, and the
/// height — is exactly what it was.
pub proof fn lemma_unsigned_rejected(s: StoreView, origin: Origin, call: Call)
    requires
        signer_of(origin) is None,
    ensures
        dispatch_tr(s, origin, call) == (s, Err::<(), Error>(Error::Unauthorized)),
{
}

/// A signed `create_booking` always succeeds and installs a record with
/// `end == start + 10` and status `Created`, whatever record — of whatever
/// status — was there before.
pub proof fn lemma_create_booking_shape(s: StoreView, origin: Origin)
    requires
        signer_of(origin) is Some,
        s.height + BOOKING_DURATION <= u64::MAX,
    ensures
        ({
            let (post, r) = create_booking_tr(s, origin);
            &&& r is Ok
            &&& post.booking == Some(
                BookingConfig {
                    start: s.height,
                    end: (s.height + BOOKING_DURATION) as u64,
                    status: BookingStatus::Created,
                },
            )
        }),
{
}

/// A signed `complete_booking` never fails and appends no event: with no
/// record it leaves the store exactly as it was, and with a record of any
/// status it only sets that record's status to `Completed`.
pub proof fn lemma_complete_booking_effect(s: StoreView, origin: Origin)
    requires
        signer_of(origin) is Some,
    ensures
        ({
            let (post, r) = complete_booking_tr(s, origin);
            &&& r is Ok
            &&& post.events == s.events
            &&& post.counter == s.counter
            &&& post.height == s.height
            &&& s.booking is None ==> post == s
            &&& (s.booking matches Some(b) ==> post.booking == Some(
                BookingConfig { status: BookingStatus::Completed, ..b },
            ))
        }),
{
}

/// A signed `increment_counter` on an absent counter fails `NoneValue` and
/// leaves the slot absent — the whole store unchanged.
pub proof fn lemma_increment_absent(s: StoreView, origin: Origin)
    requires
        signer_of(origin) is Some,
        s.counter is None,
    ensures
        increment_counter_tr(s, origin) == (s, Err::<u32, Error>(Error::NoneValue)),
{
}

/// For any value below the maximum, a signed `set_counter(v)` followed by a
/// signed `increment_counter` succeeds and leaves the counter at `v + 1`.
pub proof fn lemma_set_then_increment(s: StoreView, setter: AccountId, caller: AccountId, v: u32)
    requires
        v < u32::MAX,
    ensures
        ({
            let (s1, r1) = set_counter_tr(s, Origin::Signed(setter), v);
            let (s2, r2) = increment_counter_tr(s1, Origin::Signed(caller));
            &&& r1 is Ok
            &&& r2 == Ok::<u32, Error>((v + 1) as u32)
            &&& s2.counter == Some((v + 1) as u32)
        }),
{
}

/// A signed `set_counter(u32::MAX)` followed by a signed `increment_counter`
/// fails `StorageOverflow` and the counter stays at the maximum — the second
/// call changes nothing at all.
pub proof fn lemma_set_max_then_increment(s: StoreView, setter: AccountId, caller: AccountId)
    ensures
        ({
            let (s1, r1) = set_counter_tr(s, Origin::Signed(setter), u32::MAX);
            let (s2, r2) = increment_counter_tr(s1, Origin::Signed(caller));
            &&& r1 is Ok
            &&& r2 == Err::<u32, Error>(Error::StorageOverflow)
            &&& s2 == s1
            &&& s2.counter == Some(u32::MAX)
        }),
{
}

/// Exactly one event is appended per signed call that defines one, and its
/// parameters equal the post-call state: `create_booking` logs the fields of
/// the record it stored, `set_counter` logs the stored value and the caller,
/// and the two calls without a defined event append nothing.
pub proof fn lemma_one_event_per_call(s: StoreView, who: AccountId, call: Call)
    ensures
        ({
            let (post, r) = dispatch_tr(s, Origin::Signed(who), call);
            &&& (call is CreateBooking ==> {
                &&& post.booking matches Some(b) && post.events == s.events.push(
                    Event::CreateBooking(b.start, b.end, b.status),
                )
            })
            &&& (call matches Call::SetCounter(v) ==> {
                &&& post.counter == Some(v)
                &&& post.events == s.events.push(Event::SomethingStored(v, who))
            })
            &&& call is CompleteBooking ==> post.events == s.events
            &&& call is IncrementCounter ==> post.events == s.events
        }),
{
}

/// A call an offchain identity signed passes the signed-call check: checking
/// its signature under its own public key succeeds, for every scheme the
/// configuration may have bound.
pub proof fn lemma_signed_call_accepted<C: Config>(id: OffchainIdentity<C>, call: Call)
    ensures
        id.scheme_spec().verify_spec(
            id.scheme_spec().public_spec(id.secret_spec()),
            call_payload(call),
            id.scheme_spec().sign_spec(id.secret_spec(), call_payload(call)),
        ),
{
    id.scheme_spec().lemma_own_signature_verifies(id.secret_spec(), call_payload(call));
}

} // verus!
