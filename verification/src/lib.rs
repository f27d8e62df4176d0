//! Snapshotting, rewinding and interpolating recorded state across timelines.
//!
//! A timeline holds the states of one kind of item ([`rewind_buffer::Moment`]s) in a
//! [`rewind_buffer::RewindBuffer`], strictly ordered by time. Rewinding picks the first recorded
//! moment at or after the target time; interpolating blends the two moments around it.
//!
//! # "Pick B"
//!
//! Where continuous interpolation between two states is not possible, for example between the
//! absence of an item and its presence, or into a moment marked as a teleport, the latter state
//! is picked, however close the target time is to the former one.

pub mod continuum;
pub mod duration;
pub mod interpolation;
pub mod registration;
pub mod rewind_buffer;
pub mod schedules;
pub mod timed_messages_buffer;
pub mod timekeep;

use vstd::prelude::*;

verus! {

/// Error that signifies that the provided time value is outside of available range.
#[derive(Clone, Copy, Debug, PartialEq, Eq, Structural, PartialOrd, Ord, Hash)]
pub struct OutOfRecordedRangeError;

impl OutOfRecordedRangeError {
    /// A short description of this error.
    pub fn message(&self) -> (s: &'static str)
        ensures
            s@ == "Specified time is outside of recorded range"@,
    {
        "Specified time is outside of recorded range"
    }
}

/// `RangeInclusive::start`: claimed to return a reference to the start the range holds, which
/// is the start it was made with (`RangeInclusive::new`).
pub assume_specification<Idx>[ core::ops::RangeInclusive::<Idx>::start ](
    range: &core::ops::RangeInclusive<Idx>,
) -> (r: &Idx)
    ensures
        *r == range@.start,
;

/// `RangeInclusive::end`: claimed to return a reference to the end the range holds, which is
/// the end it was made with (`RangeInclusive::new`).
pub assume_specification<Idx>[ core::ops::RangeInclusive::<Idx>::end ](
    range: &core::ops::RangeInclusive<Idx>,
) -> (r: &Idx)
    ensures
        *r == range@.end,
;

} // verus!
