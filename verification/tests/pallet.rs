use booking_pallet::booking::{BookingConfig, BookingStatus};
use booking_pallet::origin::{ensure_signed, Origin};
use booking_pallet::pallet::{Call, Error, Event, Pallet};

#[test]
fn ensure_signed_accepts_only_signed() {
    assert_eq!(ensure_signed(Origin::Signed(7)), Ok(7));
    assert_eq!(ensure_signed(Origin::Root), Err(Error::Unauthorized));
    assert_eq!(ensure_signed(Origin::Unsigned), Err(Error::Unauthorized));
}

#[test]
fn new_store_is_empty() {
    let p = Pallet::new();
    assert_eq!(p.something(), None);
    assert_eq!(p.booking(), None);
    assert_eq!(p.events().len(), 0);
    assert_eq!(p.height(), 0);
}

#[test]
fn create_booking_at_height_five() {
    let mut p = Pallet::new();
    p.set_height(5);
    let r = p.create_booking(Origin::Signed(1));
    assert_eq!(r, Ok(()));
    assert_eq!(
        p.booking(),
        Some(BookingConfig { start: 5, end: 15, status: BookingStatus::Created })
    );
    assert_eq!(p.events().len(), 1);
    assert_eq!(p.events()[0], Event::CreateBooking(5, 15, BookingStatus::Created));
}

#[test]
fn complete_booking_after_create() {
    let mut p = Pallet::new();
    p.set_height(5);
    p.create_booking(Origin::Signed(1)).unwrap();
    let r = p.complete_booking(Origin::Signed(1));
    assert_eq!(r, Ok(()));
    assert_eq!(
        p.booking(),
        Some(BookingConfig { start: 5, end: 15, status: BookingStatus::Completed })
    );
    // No event for complete_booking: the log still holds only the create event.
    assert_eq!(p.events().len(), 1);
}

#[test]
fn complete_booking_without_record_is_noop() {
    let mut p = Pallet::new();
    let r = p.complete_booking(Origin::Signed(1));
    assert_eq!(r, Ok(()));
    assert_eq!(p.booking(), None);
    assert_eq!(p.events().len(), 0);
}

#[test]
fn complete_booking_is_idempotent_on_completed_record() {
    let mut p = Pallet::new();
    p.set_height(9);
    p.create_booking(Origin::Signed(1)).unwrap();
    p.complete_booking(Origin::Signed(1)).unwrap();
    let r = p.complete_booking(Origin::Signed(2));
    assert_eq!(r, Ok(()));
    assert_eq!(
        p.booking(),
        Some(BookingConfig { start: 9, end: 19, status: BookingStatus::Completed })
    );
}

#[test]
fn create_booking_overwrites_existing_record() {
    let mut p = Pallet::new();
    p.set_height(5);
    p.create_booking(Origin::Signed(1)).unwrap();
    p.complete_booking(Origin::Signed(1)).unwrap();
    p.set_height(20);
    let r = p.create_booking(Origin::Signed(2));
    assert_eq!(r, Ok(()));
    assert_eq!(
        p.booking(),
        Some(BookingConfig { start: 20, end: 30, status: BookingStatus::Created })
    );
    assert_eq!(p.events().len(), 2);
    assert_eq!(p.events()[1], Event::CreateBooking(20, 30, BookingStatus::Created));
}

#[test]
fn create_booking_saturates_near_top_height() {
    let mut p = Pallet::new();
    p.set_height(u64::MAX - 3);
    p.create_booking(Origin::Signed(1)).unwrap();
    assert_eq!(
        p.booking(),
        Some(BookingConfig { start: u64::MAX - 3, end: u64::MAX, status: BookingStatus::Created })
    );
}

#[test]
fn set_counter_stores_value_and_event() {
    let mut p = Pallet::new();
    let r = p.set_counter(Origin::Signed(11), 42);
    assert_eq!(r, Ok(()));
    assert_eq!(p.something(), Some(42));
    assert_eq!(p.events().len(), 1);
    assert_eq!(p.events()[0], Event::SomethingStored(42, 11));
}

#[test]
fn increment_without_prior_set_fails_none_value() {
    let mut p = Pallet::new();
    let r = p.increment_counter(Origin::Signed(1));
    assert_eq!(r, Err(Error::NoneValue));
    assert_eq!(p.something(), None);
    assert_eq!(p.events().len(), 0);
}

#[test]
fn set_then_increment_yields_next_value() {
    let mut p = Pallet::new();
    p.set_counter(Origin::Signed(1), 42).unwrap();
    let r = p.increment_counter(Origin::Signed(2));
    assert_eq!(r, Ok(43));
    assert_eq!(p.something(), Some(43));
    // increment_counter defines no event.
    assert_eq!(p.events().len(), 1);
}

#[test]
fn increment_at_max_fails_storage_overflow() {
    let mut p = Pallet::new();
    p.set_counter(Origin::Signed(1), u32::MAX).unwrap();
    let r = p.increment_counter(Origin::Signed(1));
    assert_eq!(r, Err(Error::StorageOverflow));
    assert_eq!(p.something(), Some(u32::MAX));
}

#[test]
fn unsigned_origin_rejected_for_every_operation() {
    for origin in [Origin::Root, Origin::Unsigned] {
        let mut p = Pallet::new();
        p.set_height(5);
        p.set_counter(Origin::Signed(1), 7).unwrap();
        p.create_booking(Origin::Signed(1)).unwrap();
        let events_before = p.events().len();

        assert_eq!(p.create_booking(origin), Err(Error::Unauthorized));
        assert_eq!(p.complete_booking(origin), Err(Error::Unauthorized));
        assert_eq!(p.set_counter(origin, 99), Err(Error::Unauthorized));
        assert_eq!(p.increment_counter(origin), Err(Error::Unauthorized));

        assert_eq!(p.something(), Some(7));
        assert_eq!(
            p.booking(),
            Some(BookingConfig { start: 5, end: 15, status: BookingStatus::Created })
        );
        assert_eq!(p.events().len(), events_before);
    }
}

#[test]
fn dispatch_routes_each_call() {
    let mut p = Pallet::new();
    p.set_height(5);
    assert_eq!(p.dispatch(Origin::Signed(3), Call::CreateBooking), Ok(()));
    assert_eq!(p.dispatch(Origin::Signed(3), Call::SetCounter(10)), Ok(()));
    assert_eq!(p.dispatch(Origin::Signed(3), Call::IncrementCounter), Ok(()));
    assert_eq!(p.dispatch(Origin::Signed(3), Call::CompleteBooking), Ok(()));
    assert_eq!(p.something(), Some(11));
    assert_eq!(
        p.booking(),
        Some(BookingConfig { start: 5, end: 15, status: BookingStatus::Completed })
    );
    assert_eq!(p.events().len(), 2);
    assert_eq!(p.events()[0], Event::CreateBooking(5, 15, BookingStatus::Created));
    assert_eq!(p.events()[1], Event::SomethingStored(10, 3));
}

#[test]
fn dispatch_surfaces_business_errors() {
    let mut p = Pallet::new();
    assert_eq!(
        p.dispatch(Origin::Signed(3), Call::IncrementCounter),
        Err(Error::NoneValue)
    );
    p.dispatch(Origin::Signed(3), Call::SetCounter(u32::MAX)).unwrap();
    assert_eq!(
        p.dispatch(Origin::Signed(3), Call::IncrementCounter),
        Err(Error::StorageOverflow)
    );
    assert_eq!(p.something(), Some(u32::MAX));
}

#[test]
fn set_counter_overwrites_prior_value() {
    let mut p = Pallet::new();
    p.set_counter(Origin::Signed(1), 7).unwrap();
    p.set_counter(Origin::Signed(2), 3).unwrap();
    assert_eq!(p.something(), Some(3));
    assert_eq!(p.events().len(), 2);
    assert_eq!(p.events()[0], Event::SomethingStored(7, 1));
    assert_eq!(p.events()[1], Event::SomethingStored(3, 2));
}

#[test]
fn booking_status_represents_all_three_values() {
    // The record type must be able to carry any status at any time.
    for status in [BookingStatus::Created, BookingStatus::Active, BookingStatus::Completed] {
        let b = BookingConfig { start: 1, end: 11, status };
        assert_eq!(b.status, status);
    }
}

#[test]
fn event_log_keeps_call_inclusion_order() {
    let mut p = Pallet::new();
    p.set_height(2);
    p.set_counter(Origin::Signed(4), 1).unwrap();
    p.create_booking(Origin::Signed(5)).unwrap();
    p.set_counter(Origin::Signed(6), 2).unwrap();
    assert_eq!(
        *p.events(),
        vec![
            Event::SomethingStored(1, 4),
            Event::CreateBooking(2, 12, BookingStatus::Created),
            Event::SomethingStored(2, 6),
        ]
    );
}
