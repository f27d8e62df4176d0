//! State for interpolating between the two latest states recorded at fixed timesteps, and the
//! timing decisions of that interpolation.
//!
//! World state is recorded at the end of every fixed timestep, keeping up to two states. Every
//! frame, the world is then interpolated to the current fixed time plus its overstep minus one
//! timestep: the latest state is already behind real time by the overstep, and the next one is
//! not known until a full timestep has passed, so one timestep is the least delay that keeps the
//! target time between the two recorded states.

use core::ops::{Deref, DerefMut};

use vstd::prelude::*;

use crate::continuum::{Continuum, Timeline};
use crate::duration::{max_nanos, Duration};
use crate::rewind_buffer::RewindBuffer;
use crate::schedules::{
    InterpolateTo, OutOfTimelineRangePolicy, RewindTo, RotateBuffers, TickRestorePolicy,
};

verus! {

/// Settings and variables for interpolation.
#[derive(Clone, Copy, Debug)]
pub struct InterpolationVariables {
    /// If true, any change made outside of the fixed timestep logic overwrites recorded state.
    /// Useful during development, e.g. to keep edits from being overwritten by interpolation.
    /// Default is false.
    pub account_for_changes: bool,
    /// If false, none of the interpolation systems do anything. Default is true.
    pub run_interpolation_systems: bool,
    /// Policy with which world state is rewound. Default is
    /// [`TickRestorePolicy::RestoreOldTicks`], to keep interpolation transparent to fixed
    /// timestep logic.
    pub rewind_policy: TickRestorePolicy,
    /// Extra time for which old state is kept. Default is zero.
    pub store_extra_backlog: Duration,
}

impl Default for InterpolationVariables {
    fn default() -> (v: Self)
        ensures
            !v.account_for_changes,
            v.run_interpolation_systems,
            v.rewind_policy == TickRestorePolicy::RestoreOldTicks,
            v.store_extra_backlog@ == 0,
    {
        InterpolationVariables {
            account_for_changes: false,
            run_interpolation_systems: true,
            rewind_policy: TickRestorePolicy::RestoreOldTicks,
            store_extra_backlog: Duration::zero(),
        }
    }
}

/// What returning the world to its last fixed state does, before fixed timestep logic runs.
#[derive(Clone, Debug, PartialEq, Eq)]
pub struct ReturnToFixedPlan {
    /// The number of last recorded states to overwrite with the changes made since, first;
    /// `None` when changes are not accounted for.
    pub account_for_changes: Option<usize>,
    /// The rewind to perform.
    pub rewind: RewindTo<InterpolatedContinuum>,
}

/// What recording a new state does, after a fixed timestep.
#[derive(Clone, Debug, PartialEq, Eq)]
pub struct RecordNewStatePlan {
    /// Whether to discard the changes made in this tick first.
    pub discard_changes_first: bool,
    /// The rotation of the buffers to perform.
    pub rotate: RotateBuffers<InterpolatedContinuum>,
}

/// What interpolating the world does, every frame after fixed timestep logic.
#[derive(Clone, Debug, PartialEq, Eq)]
pub struct PerformInterpolationPlan {
    /// The number of last recorded states to overwrite with the changes made since, first;
    /// `None` when changes are not accounted for.
    pub account_for_changes: Option<usize>,
    /// The interpolation to perform; `None` when the continuum already is at the target time.
    pub interpolate: Option<InterpolateTo<InterpolatedContinuum>>,
    /// Whether to discard the changes made since, last.
    pub discard_changes_after: bool,
}

impl InterpolationVariables {
    /// Returning the world to the last recorded state, given the current time, the time of the
    /// interpolated continuum (if it was ever moved) and the time of the last recorded state (if
    /// any): nothing if interpolation is switched off, the continuum was never moved or already
    /// is at `current_time`, or nothing was recorded yet. Otherwise, after overwriting the last
    /// recorded state with changes if they are accounted for, the continuum is rewound to the
    /// last recorded time with the configured tick policy, leaving alone what it does not cover.
    pub fn return_to_fixed_plan(
        &self,
        current_time: Duration,
        continuum_time: Option<Duration>,
        last_recorded: Option<Duration>,
    ) -> (p: Option<ReturnToFixedPlan>)
        ensures
            p is Some <==> (self.run_interpolation_systems && (continuum_time matches Some(t)
                && t@ != current_time@) && last_recorded is Some),
            p matches Some(plan) ==> {
                &&& plan.account_for_changes == (if self.account_for_changes {
                    Some(1usize)
                } else {
                    None
                })
                &&& last_recorded == Some(plan.rewind.to)
                &&& plan.rewind.tick_restore_policy == self.rewind_policy
                &&& plan.rewind.out_of_timeline_range_policy == OutOfTimelineRangePolicy::DoNothing
            },
    {
        if !self.run_interpolation_systems {
            return None;
        }
        let t = match continuum_time {
            None => {
                return None;
            },
            Some(t) => t,
        };
        if t.same(&current_time) {
            return None;
        }
        let to = match last_recorded {
            None => {
                return None;
            },
            Some(to) => to,
        };
        Some(
            ReturnToFixedPlan {
                account_for_changes: if self.account_for_changes {
                    Some(1)
                } else {
                    None
                },
                rewind: RewindTo {
                    to,
                    tick_restore_policy: self.rewind_policy,
                    out_of_timeline_range_policy: OutOfTimelineRangePolicy::DoNothing,
                    continuum: InterpolatedContinuum,
                },
            },
        )
    }

    /// Recording a new state after a fixed timestep that ended at `elapsed`: nothing if
    /// interpolation is switched off. Otherwise, after discarding the changes made in this tick
    /// if changes are accounted for, moments before one timestep plus the extra backlog before
    /// `elapsed` (or before zero) are deleted and the new state is recorded at `elapsed`. The
    /// timestep must not be zero, and with the backlog must fit in a span.
    pub fn record_new_state_plan(&self, elapsed: Duration, timestep: Duration) -> (p: Option<
        RecordNewStatePlan,
    >)
        requires
            self.run_interpolation_systems ==> timestep@ != 0 && timestep@
                + self.store_extra_backlog@ <= max_nanos(),
        ensures
            p is Some <==> self.run_interpolation_systems,
            p matches Some(plan) ==> {
                &&& plan.discard_changes_first == self.account_for_changes
                &&& plan.rotate.delete_before@ == (if elapsed@ >= timestep@
                    + self.store_extra_backlog@ {
                    elapsed@ - timestep@ - self.store_extra_backlog@
                } else {
                    0
                })
                &&& plan.rotate.current_time == elapsed
            },
    {
        if !self.run_interpolation_systems {
            return None;
        }
        let keep = timestep.checked_add(self.store_extra_backlog).unwrap();
        Some(
            RecordNewStatePlan {
                discard_changes_first: self.account_for_changes,
                rotate: RotateBuffers {
                    delete_before: elapsed.saturating_sub(keep),
                    current_time: elapsed,
                    continuum: InterpolatedContinuum,
                },
            },
        )
    }

    /// Interpolating the world for a frame, given the fixed time `elapsed`, its `overstep`, the
    /// `timestep` and the time of the interpolated continuum (if it was ever moved): nothing if
    /// interpolation is switched off. Otherwise the last two recorded states are overwritten
    /// with changes first and the changes discarded last, if changes are accounted for; in
    /// between, the continuum is interpolated to one timestep before `elapsed` plus `overstep`
    /// ([`target_nanos`]), leaving alone what it does not cover, unless it already is there.
    /// The timestep must not be zero.
    pub fn perform_interpolation_plan(
        &self,
        elapsed: Duration,
        overstep: Duration,
        timestep: Duration,
        continuum_time: Option<Duration>,
    ) -> (p: Option<PerformInterpolationPlan>)
        requires
            self.run_interpolation_systems ==> timestep@ != 0,
        ensures
            p is Some <==> self.run_interpolation_systems,
            p matches Some(plan) ==> {
                &&& plan.account_for_changes == (if self.account_for_changes {
                    Some(2usize)
                } else {
                    None
                })
                &&& plan.discard_changes_after == self.account_for_changes
                &&& (match continuum_time {
                    Some(c) if c@ == target_nanos(elapsed, overstep, timestep) => plan.interpolate is None,
                    _ => plan.interpolate matches Some(i) && i.to@ == target_nanos(
                        elapsed,
                        overstep,
                        timestep,
                    ) && i.out_of_timeline_range_policy == OutOfTimelineRangePolicy::DoNothing,
                })
            },
    {
        if !self.run_interpolation_systems {
            return None;
        }
        let target = elapsed.saturating_add(overstep).saturating_sub(timestep);
        let already_there = match continuum_time {
            Some(c) => c.same(&target),
            None => false,
        };
        let interpolate = if already_there {
            None
        } else {
            Some(
                InterpolateTo {
                    to: target,
                    out_of_timeline_range_policy: OutOfTimelineRangePolicy::DoNothing,
                    continuum: InterpolatedContinuum,
                },
            )
        };
        Some(
            PerformInterpolationPlan {
                account_for_changes: if self.account_for_changes {
                    Some(2)
                } else {
                    None
                },
                interpolate,
                discard_changes_after: self.account_for_changes,
            },
        )
    }
}

/// One `timestep` before `elapsed` plus `overstep`, in nanoseconds, saturating at both ends.
pub open spec fn target_nanos(elapsed: Duration, overstep: Duration, timestep: Duration) -> nat {
    let ahead: nat = if elapsed@ + overstep@ <= max_nanos() {
        elapsed@ + overstep@
    } else {
        max_nanos()
    };
    if ahead >= timestep@ {
        (ahead - timestep@) as nat
    } else {
        0
    }
}

/// With an overstep shorter than the timestep, and at least one timestep elapsed, the time to
/// interpolate to lies between the state recorded one timestep ago (inclusive) and the latest
/// one, so there always are two recorded states to interpolate between.
pub proof fn lemma_target_between_last_two_states(
    elapsed: Duration,
    overstep: Duration,
    timestep: Duration,
)
    requires
        overstep@ < timestep@,
        timestep@ <= elapsed@,
        elapsed@ + overstep@ <= max_nanos(),
    ensures
        elapsed@ - timestep@ <= target_nanos(elapsed, overstep, timestep) < elapsed@,
{
}

/// A timeline of the component or resource `T` that stores states produced within the fixed
/// timestep schedules, to interpolate between.
#[derive(Debug)]
pub struct Interpolated<T: Clone + Send + Sync + 'static> {
    /// Buffer containing the values to interpolate between.
    pub buf: RewindBuffer<T>,
    /// Whether the value was "teleported" in the current tick: if so, the next recorded moment is
    /// snapped to, and this is reset afterwards.
    pub teleported: bool,
}

impl<T: Clone + Send + Sync + 'static> Default for Interpolated<T> {
    /// An empty timeline, not teleported.
    fn default() -> (i: Self)
        ensures
            i.buf@ == Seq::<crate::rewind_buffer::Moment<T>>::empty(),
            !i.teleported,
    {
        Interpolated { buf: RewindBuffer::with_capacity(2), teleported: false }
    }
}

impl<T: Clone + Send + Sync + 'static> Deref for Interpolated<T> {
    type Target = RewindBuffer<T>;

    fn deref(&self) -> (r: &RewindBuffer<T>)
        ensures
            *r == self.buf,
    {
        &self.buf
    }
}

impl<T: Clone + Send + Sync + 'static> DerefMut for Interpolated<T> {
    fn deref_mut(&mut self) -> (r: &mut RewindBuffer<T>)
        ensures
            *r == old(self).buf,
            final(self).buf == *final(r),
            final(self).teleported == old(self).teleported,
    {
        &mut self.buf
    }
}

/// The [`Continuum`] of [`Interpolated`] timelines.
#[derive(Clone, Copy, PartialEq, Eq, Debug, Hash, Default)]
pub struct InterpolatedContinuum;

impl Continuum for InterpolatedContinuum {

}

impl<T: Clone + Send + Sync + 'static> Timeline for Interpolated<T> {
    type Item = T;

    type Continuum = InterpolatedContinuum;

    fn discontinuity(&self) -> (r: bool)
        ensures
            r == self.teleported,
    {
        self.teleported
    }

    fn reset_discontinuity(&mut self)
        ensures
            !final(self).teleported,
            final(self).buf == old(self).buf,
    {
        self.teleported = false;
    }
}

} // verus!
