//! The booking record: a lifecycle-tracked reservation pinned to chain height.

use vstd::prelude::*;

verus! {

/// Lifecycle tag of a booking record. The state machine must be able to
/// represent any of the three values at any time; no transition validity is
/// enforced on it.
#[derive(Clone, Copy, Debug, PartialEq, Eq, Structural)]
pub enum BookingStatus {
    Created,
    Active,
    Completed,
}

/// A booking record. `start` and `end` are chain heights (the chain's
/// monotonically increasing block counter, used as a coarse timestamp).
/// As constructed by the module, `end` is `start + 10`, saturated at the top
/// of the height range.
#[derive(Clone, Copy, Debug, PartialEq, Eq, Structural)]
pub struct BookingConfig {
    pub start: u64,
    pub end: u64,
    pub status: BookingStatus,
}

/// How many heights a fresh booking spans.
pub const BOOKING_DURATION: u64 = 10;

/// The end height of a booking that starts at `start`: `start + 10`,
/// saturated at the top of the height range.
pub open spec fn booking_end(start: u64) -> u64 {
    if start + BOOKING_DURATION <= u64::MAX {
        (start + BOOKING_DURATION) as u64
    } else {
        u64::MAX
    }
}

/// The record that `create_booking` installs when the chain is at `height`.
pub open spec fn fresh_booking(height: u64) -> BookingConfig {
    BookingConfig { start: height, end: booking_end(height), status: BookingStatus::Created }
}

impl BookingConfig {
    /// Build the record for a booking created at `height`.
    pub fn new_at(height: u64) -> (b: BookingConfig)
        ensures
            b == fresh_booking(height),
    {
        let end = if height <= u64::MAX - BOOKING_DURATION {
            height + BOOKING_DURATION
        } else {
            u64::MAX
        };
        BookingConfig { start: height, end, status: BookingStatus::Created }
    }
}

} // verus!
