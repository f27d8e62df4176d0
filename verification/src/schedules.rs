//! Policies and parameters of the time travel schedules, and the decisions their systems make
//! for each timeline.

use core::sync::atomic::AtomicBool;

use vstd::prelude::*;

use crate::continuum::Continuum;
use crate::duration::Duration;
use crate::rewind_buffer::{
    covers, first_at_or_after, ChangeDetectionState, InterpolationPlan,
    RewindBuffer, TickUpdate, is_plan_between, takes_item_of,
};

verus! {

/// Policy determining how to rewind change detection state when rewinding an item.
#[derive(Clone, Copy, Debug, Hash, PartialEq, Eq, Structural)]
pub enum TickRestorePolicy {
    /// Restore the same `last_changed` and `last_added` ticks on the items.
    ///
    /// This should effectively leave it as "not changed" from the perspective of all systems
    /// that had observed this item with this state last time, unless change tick rollover has
    /// happened between then and now.
    RestoreOldTicks,
    /// Retrigger `last_changed` and `last_added` state based on what was observed at the time the
    /// item was saved: an item detected as changed is marked as changed anew, otherwise the old
    /// ticks are restored. The same goes for `last_added`.
    Retrigger,
    /// [`Self::RestoreOldTicks`] when rewinding to the latest saved item, [`Self::Retrigger`]
    /// otherwise. The default.
    Adaptive,
    /// Always mark the items as changed.
    MarkAllChanged,
    /// Do not touch change ticks at all and bypass change detection when rewinding. Created
    /// items are still marked as created.
    Bypass,
}

impl Default for TickRestorePolicy {
    fn default() -> (p: Self)
        ensures
            p == TickRestorePolicy::Adaptive,
    {
        TickRestorePolicy::Adaptive
    }
}

impl TickRestorePolicy {
    /// The update to the ticks of an item restored to `state` under this policy, given whether
    /// it is restored to the latest item in the buffer: the recorded ticks for
    /// [`Self::RestoreOldTicks`], the change detection observed at recording for
    /// [`Self::Retrigger`], the former for the latest item and the latter otherwise for
    /// [`Self::Adaptive`], a change for [`Self::MarkAllChanged`], and nothing for [`Self::Bypass`].
    pub open spec fn spec_tick_update(self, state: ChangeDetectionState, is_latest_in_buffer: bool) -> TickUpdate {
        match self {
            TickRestorePolicy::RestoreOldTicks => TickUpdate::Restore(state.ticks),
            TickRestorePolicy::Retrigger => retriggered(state),
            TickRestorePolicy::Adaptive => if is_latest_in_buffer {
                TickUpdate::Restore(state.ticks)
            } else {
                retriggered(state)
            },
            TickRestorePolicy::MarkAllChanged => TickUpdate::MarkChanged,
            TickRestorePolicy::Bypass => TickUpdate::Leave,
        }
    }

    /// What to do with the ticks of an item restored to `state` under this policy, given whether
    /// it is restored to the latest item in the buffer.
    pub fn tick_update(self, state: &ChangeDetectionState, is_latest_in_buffer: bool) -> (u:
        TickUpdate)
        ensures
            u == self.spec_tick_update(*state, is_latest_in_buffer),
    {
        match self {
            TickRestorePolicy::RestoreOldTicks => state.restore_update(),
            TickRestorePolicy::Retrigger => state.retrigger_update(),
            TickRestorePolicy::Adaptive => {
                if is_latest_in_buffer {
                    state.restore_update()
                } else {
                    state.retrigger_update()
                }
            },
            TickRestorePolicy::MarkAllChanged => TickUpdate::MarkChanged,
            TickRestorePolicy::Bypass => TickUpdate::Leave,
        }
    }

    /// `true` if this policy acts differently when restoring the latest item in the buffer.
    pub fn do_we_care_about_latest_in_buffer(self) -> (r: bool)
        ensures
            r <==> self == TickRestorePolicy::Adaptive,
    {
        match self {
            TickRestorePolicy::Adaptive => true,
            _ => false,
        }
    }
}

/// What each policy does to the ticks of a restored item, for every recorded state: restoring
/// the old ticks sets both ticks back to the recorded ones, whatever change was recorded and
/// whether or not the item is the latest; retriggering restores them for an unchanged item,
/// restores the added tick and marks the item changed for a changed one, and marks an added one
/// as added; the adaptive policy restores for the latest item and retriggers otherwise; the
/// last two policies mark everything changed and leave ticks alone.
pub proof fn lemma_tick_updates(state: ChangeDetectionState, is_latest: bool)
    ensures
        TickRestorePolicy::RestoreOldTicks.spec_tick_update(state, is_latest) == TickUpdate::Restore(
            state.ticks,
        ),
        state.change == crate::rewind_buffer::LastDetectedChange::NoChange
            ==> TickRestorePolicy::Retrigger.spec_tick_update(state, is_latest)
            == TickUpdate::Restore(state.ticks),
        state.change == crate::rewind_buffer::LastDetectedChange::Changed
            ==> TickRestorePolicy::Retrigger.spec_tick_update(state, is_latest)
            == TickUpdate::RestoreAddedMarkChanged(state.ticks),
        state.change == crate::rewind_buffer::LastDetectedChange::Added
            ==> TickRestorePolicy::Retrigger.spec_tick_update(state, is_latest)
            == TickUpdate::MarkAdded,
        TickRestorePolicy::Adaptive.spec_tick_update(state, true) == TickUpdate::Restore(
            state.ticks,
        ),
        TickRestorePolicy::Adaptive.spec_tick_update(state, false)
            == TickRestorePolicy::Retrigger.spec_tick_update(state, false),
        TickRestorePolicy::MarkAllChanged.spec_tick_update(state, is_latest)
            == TickUpdate::MarkChanged,
        TickRestorePolicy::Bypass.spec_tick_update(state, is_latest) == TickUpdate::Leave,
{
}

/// The update that triggers the same change detection as was observed when `state` was recorded.
pub open spec fn retriggered(state: ChangeDetectionState) -> TickUpdate {
    match state.change {
        crate::rewind_buffer::LastDetectedChange::NoChange => TickUpdate::Restore(state.ticks),
        crate::rewind_buffer::LastDetectedChange::Changed => TickUpdate::RestoreAddedMarkChanged(
            state.ticks,
        ),
        crate::rewind_buffer::LastDetectedChange::Added => TickUpdate::MarkAdded,
    }
}

/// Policy determining what to do when rewinding or interpolating to a time that is out of range
/// of a timeline.
#[derive(Clone, Copy, Debug, Hash, PartialEq, Eq, Structural)]
pub enum OutOfTimelineRangePolicy {
    /// Do nothing and leave the currently present state as is.
    DoNothing,
    /// Assume the state of the item is absent whenever it's not in the timeline range. The
    /// default.
    AssumeNone,
}

impl Default for OutOfTimelineRangePolicy {
    fn default() -> (p: Self)
        ensures
            p == OutOfTimelineRangePolicy::AssumeNone,
    {
        OutOfTimelineRangePolicy::AssumeNone
    }
}

/// Labels of the schedules used to perform time travel across a continuum.
#[derive(Clone, Copy, PartialEq, Eq, Debug, Hash)]
pub enum TimeTravelSchedules<C: Continuum> {
    /// Rewinding to a fixed recorded point in time, described by [`RewindTo`].
    Rewinding(C),
    /// Producing a whole new world state by interpolating recorded points in time, described by
    /// [`InterpolateTo`].
    Interpolating(C),
    /// Clearing older recorded state and recording the current one, described by
    /// [`RotateBuffers`].
    RotatingBuffers(C),
    /// Deleting all recorded state after a point in time, described by [`DeleteAfter`].
    DeletingAfter(C),
    /// Deleting all stored state.
    Clearing(C),
    /// Overwriting recorded state with changes made since, described by [`AccountForChanges`].
    AccountingForChanges(C),
    /// Detecting items to clean up across the timeline; followed by
    /// [`TimeTravelSchedules::CleaningUpEmptyPerforming`].
    CleaningUpEmptyDetecting(C),
    /// Cleaning up the items found by [`TimeTravelSchedules::CleaningUpEmptyDetecting`].
    CleaningUpEmptyPerforming(C),
    /// Cleaning up disabled entities across the timeline.
    CleaningUpDisabledEntities(C),
}

/// The set of systems that do the actual work in [`TimeTravelSchedules`].
#[derive(Clone, PartialEq, Eq, Debug, Hash)]
pub struct TimeTravelSystemSet;

/// Parameters for [`TimeTravelSchedules::Rewinding`].
#[derive(Clone, PartialEq, Eq, Debug, Hash)]
pub struct RewindTo<C: Continuum> {
    /// Time to rewind to.
    pub to: Duration,
    /// How to restore change ticks.
    pub tick_restore_policy: TickRestorePolicy,
    /// What to do with timelines that do not cover `to`.
    pub out_of_timeline_range_policy: OutOfTimelineRangePolicy,
    /// Timeline continuum.
    pub continuum: C,
}

/// Parameters for [`TimeTravelSchedules::Interpolating`].
#[derive(Clone, PartialEq, Eq, Debug, Hash)]
pub struct InterpolateTo<C: Continuum> {
    /// Time to interpolate to.
    pub to: Duration,
    /// What to do with timelines that do not cover `to`.
    pub out_of_timeline_range_policy: OutOfTimelineRangePolicy,
    /// Timeline continuum.
    pub continuum: C,
}

/// Parameters for [`TimeTravelSchedules::RotatingBuffers`].
#[derive(Clone, PartialEq, Eq, Debug, Hash)]
pub struct RotateBuffers<C: Continuum> {
    /// All moments with time before this are deleted.
    pub delete_before: Duration,
    /// New moments are recorded with this time.
    pub current_time: Duration,
    /// Timeline continuum.
    pub continuum: C,
}

/// Parameters for [`TimeTravelSchedules::DeletingAfter`].
#[derive(Clone, PartialEq, Eq, Debug, Hash)]
pub struct DeleteAfter<C: Continuum> {
    /// All moments with time after this are deleted.
    pub delete_after: Duration,
    /// Timeline continuum.
    pub continuum: C,
}

/// Parameters for [`TimeTravelSchedules::AccountingForChanges`].
#[derive(Debug)]
pub struct AccountForChanges<C: Continuum> {
    /// How many states, from the end, to overwrite with the latest.
    pub overwrite_states: usize,
    /// Set to true if any change was detected.
    pub change_detected: AtomicBool,
    /// Timeline continuum.
    pub continuum: C,
}

/// What accounting for changes does about the item of one timeline.
#[derive(Clone, Copy, Debug, PartialEq, Eq, Structural)]
pub struct ChangeResponse {
    /// Whether to report that a change was detected.
    pub flag_change: bool,
    /// Whether to overwrite the last recorded states with the current item.
    pub overwrite: bool,
}

/// The response of accounting for changes to an item that was `changed` (added, changed or
/// removed) since it was last recorded, or not, when the last `overwrite_states` recorded states
/// are to be overwritten: a change is reported, and the recorded states are overwritten when
/// there are any to overwrite; an unchanged item is left alone.
pub fn change_response(overwrite_states: usize, changed: bool) -> (r: ChangeResponse)
    ensures
        r.flag_change == changed,
        r.overwrite == (changed && overwrite_states > 0),
{
    ChangeResponse { flag_change: changed, overwrite: changed && overwrite_states > 0 }
}

/// Parameters for [`TimeTravelSchedules::CleaningUpEmptyDetecting`].
#[derive(Debug)]
pub struct CleanUpEmpty<C: Continuum> {
    /// Timeline continuum.
    pub continuum: C,
}

/// Marks an entity whose timelines have no present moments.
#[derive(Debug, Default)]
pub struct HasEmptyBuffers<C: Continuum>(pub C);

/// Marks an entity whose timelines have moments present.
#[derive(Debug, Default)]
pub struct HasNonEmptyBuffers<C: Continuum>(pub C);

/// How an item that exists (or not) has to change to match the state it should be in.
#[derive(Clone, Copy, Debug, PartialEq, Eq, Structural)]
pub enum ItemChange {
    /// It neither exists nor should: nothing to do.
    Keep,
    /// It does not exist but should: insert it.
    Insert,
    /// It exists but should not: remove it.
    Remove,
    /// It exists and should: overwrite it.
    Overwrite,
}

impl ItemChange {
    /// The change that brings an item that is `present` (or not) to be `should_be_present` (or not).
    pub fn between(present: bool, should_be_present: bool) -> (c: ItemChange)
        ensures
            c == (match (present, should_be_present) {
                (false, false) => ItemChange::Keep,
                (false, true) => ItemChange::Insert,
                (true, false) => ItemChange::Remove,
                (true, true) => ItemChange::Overwrite,
            }),
    {
        match (present, should_be_present) {
            (false, false) => ItemChange::Keep,
            (false, true) => ItemChange::Insert,
            (true, false) => ItemChange::Remove,
            (true, true) => ItemChange::Overwrite,
        }
    }
}

/// What rewinding does to one item of a timeline.
#[derive(Debug)]
pub enum RewindAction<'a, T> {
    /// Leave the item as it is.
    Leave,
    /// Insert a clone of this item, then update its ticks.
    Insert(&'a T, TickUpdate),
    /// Remove the item.
    Remove,
    /// Overwrite the item with a clone of this one, bypassing change detection, then update its
    /// ticks.
    Overwrite(&'a T, TickUpdate),
}

/// `true` when `action` brings an item that is `present` (or not) to the recorded state
/// `target` of a moment, restoring ticks by `policy`.
pub open spec fn restores_to<T>(
    action: RewindAction<'_, T>,
    present: bool,
    target: Option<(ChangeDetectionState, T)>,
    policy: TickRestorePolicy,
    is_latest: bool,
) -> bool {
    match (present, target) {
        (false, None) => action is Leave,
        (true, None) => action is Remove,
        (false, Some(t)) => action == RewindAction::Insert(&t.1, policy.spec_tick_update(t.0, is_latest)),
        (true, Some(t)) => action == RewindAction::Overwrite(&t.1, policy.spec_tick_update(t.0, is_latest)),
    }
}

/// Restoring an item to a recorded state inserts it only when it is absent and should be present,
/// overwrites it only when it is present and should be, removes it only when it is present and
/// should not be, and leaves it only when it is absent and should stay so; an inserted or
/// overwritten item is the recorded one, with its ticks updated by the policy.
pub proof fn lemma_restore_action_by_presence<T>(
    action: RewindAction<'_, T>,
    present: bool,
    target: Option<(ChangeDetectionState, T)>,
    policy: TickRestorePolicy,
    is_latest: bool,
)
    requires
        restores_to(action, present, target, policy, is_latest),
    ensures
        action is Insert ==> !present && target is Some,
        action is Overwrite ==> present && target is Some,
        action is Remove ==> present && target is None,
        action is Leave ==> !present && target is None,
        action matches RewindAction::Insert(x, u) ==> (target matches Some(t) && *x == t.1 && u
            == policy.spec_tick_update(t.0, is_latest)),
        action matches RewindAction::Overwrite(x, u) ==> (target matches Some(t) && *x == t.1 && u
            == policy.spec_tick_update(t.0, is_latest)),
{
}

impl<C: Continuum> RewindTo<C> {
    /// What rewinding does to the item of the timeline `buf`, given whether the item is `present`
    /// now.
    ///
    /// The item is brought to the state of the moment "Pick B" selects for the target time, with
    /// ticks restored by the tick policy, which is told whether that is the latest moment. A
    /// timeline that does not cover the target time is left alone under
    /// [`OutOfTimelineRangePolicy::DoNothing`] and otherwise brought to an absent item.
    pub fn action_for<'a, T>(&self, buf: &'a RewindBuffer<T>, present: bool) -> (action:
        RewindAction<'a, T>)
        ensures
            !covers(buf@, self.to) ==> (if self.out_of_timeline_range_policy
                == OutOfTimelineRangePolicy::DoNothing {
                action is Leave
            } else {
                restores_to(action, present, None, self.tick_restore_policy, false)
            }),
            covers(buf@, self.to) ==> exists|k: int|
                #[trigger] first_at_or_after(buf@, self.to, k) && restores_to(
                    action,
                    present,
                    buf@[k].item,
                    self.tick_restore_policy,
                    self.tick_restore_policy == TickRestorePolicy::Adaptive && buf@.last().time
                        == buf@[k].time,
                ),
    {
        let should_be = buf.rewind_to(self.to);
        let (target, is_latest) = match should_be {
            Ok(moment) => {
                let is_latest = if self.tick_restore_policy.do_we_care_about_latest_in_buffer() {
                    let last = buf.last_moment().unwrap();
                    last.time == moment.time
                } else {
                    false
                };
                (&moment.item, is_latest)
            },
            Err(_) => {
                if self.out_of_timeline_range_policy == OutOfTimelineRangePolicy::DoNothing {
                    return RewindAction::Leave;
                }
                (&None, false)
            },
        };
        match target {
            None => {
                if present {
                    RewindAction::Remove
                } else {
                    RewindAction::Leave
                }
            },
            Some(pair) => {
                let update = self.tick_restore_policy.tick_update(&pair.0, is_latest);
                if present {
                    RewindAction::Overwrite(&pair.1, update)
                } else {
                    RewindAction::Insert(&pair.1, update)
                }
            },
        }
    }
}

impl<C: Continuum> InterpolateTo<C> {
    /// How interpolating produces the item of the timeline `buf`: `None` to leave the item as it
    /// is, which happens only for a timeline that does not cover the target time under
    /// [`OutOfTimelineRangePolicy::DoNothing`]; an absent item for such a timeline otherwise;
    /// and the plan of [`RewindBuffer::plan_interpolation`] for one that covers it.
    pub fn plan_for<'a, T>(&self, buf: &'a RewindBuffer<T>) -> (r: Option<InterpolationPlan<'a, T>>)
        ensures
            !covers(buf@, self.to) ==> (if self.out_of_timeline_range_policy
                == OutOfTimelineRangePolicy::DoNothing {
                r is None
            } else {
                r == Some(InterpolationPlan::<T>::Take(None))
            }),
            covers(buf@, self.to) ==> (r matches Some(plan) && exists|k: int|
                {
                    &&& #[trigger] first_at_or_after(buf@, self.to, k)
                    &&& if k == 0 || buf@[k].time@ == self.to@ {
                        takes_item_of(plan, buf@[k])
                    } else {
                        is_plan_between(plan, buf@[k - 1], buf@[k], self.to)
                    }
                }),
    {
        match buf.plan_interpolation(self.to) {
            Ok(plan) => Some(plan),
            Err(_) => {
                if self.out_of_timeline_range_policy == OutOfTimelineRangePolicy::DoNothing {
                    None
                } else {
                    Some(InterpolationPlan::Take(None))
                }
            },
        }
    }
}

/// What cleaning up does to an entity, by the markers that detection left on it.
#[derive(Clone, Copy, Debug, PartialEq, Eq, Structural)]
pub enum CleanUpAction {
    /// Some of its timelines hold items: keep it, and remove the markers it has.
    RemoveMarkers {
        /// Whether it also carries the marker of empty timelines.
        has_empty_marker: bool,
    },
    /// All of its timelines are empty: despawn it.
    Despawn,
}

/// The clean-up for an entity by the markers it carries: kept with its markers removed if any
/// of its timelines holds items, despawned otherwise.
pub open spec fn clean_up_for(has_empty_marker: bool, has_non_empty_marker: bool) -> CleanUpAction {
    if has_non_empty_marker {
        CleanUpAction::RemoveMarkers { has_empty_marker }
    } else {
        CleanUpAction::Despawn
    }
}

/// Whether detection marks an entity as having a non-empty timeline, given for each of its
/// timelines whether that timeline holds items ([`RewindBuffer::has_present_items`]).
pub open spec fn marked_non_empty(present: Seq<bool>) -> bool {
    exists|i: int| 0 <= i < present.len() && present[i]
}

/// Whether detection marks an entity as having an empty timeline, given for each of its
/// timelines whether that timeline holds items ([`RewindBuffer::has_present_items`]).
pub open spec fn marked_empty(present: Seq<bool>) -> bool {
    exists|i: int| 0 <= i < present.len() && !present[i]
}

/// Cleaning up after detection despawns an entity with timelines exactly when none of its
/// timelines holds an item; an entity that is kept loses every marker it carries.
pub proof fn lemma_clean_up_despawns_iff_all_empty(present: Seq<bool>)
    requires
        present.len() > 0,
    ensures
        marked_empty(present) || marked_non_empty(present),
        clean_up_for(marked_empty(present), marked_non_empty(present)) == CleanUpAction::Despawn
            <==> forall|i: int| 0 <= i < present.len() ==> !present[i],
        clean_up_for(marked_empty(present), marked_non_empty(present)) matches CleanUpAction::RemoveMarkers {
            has_empty_marker,
        } ==> has_empty_marker == marked_empty(present),
{
    if !present[0] {
        assert(marked_empty(present));
    } else {
        assert(marked_non_empty(present));
    }
}

impl CleanUpAction {
    /// The clean-up for an entity that carries at least one of the two markers: an entity with
    /// any non-empty timeline is kept, and one with only empty timelines is despawned.
    pub fn decide(has_empty_marker: bool, has_non_empty_marker: bool) -> (a: CleanUpAction)
        requires
            has_empty_marker || has_non_empty_marker,
        ensures
            a == clean_up_for(has_empty_marker, has_non_empty_marker),
    {
        if has_non_empty_marker {
            CleanUpAction::RemoveMarkers { has_empty_marker }
        } else {
            CleanUpAction::Despawn
        }
    }
}

/// `true` when every recorded moment of the timeline `buf` holds an item. For a timeline of the
/// "disabled" marker, this means the entity was disabled throughout, and can be despawned.
pub fn present_throughout<T>(buf: &RewindBuffer<T>) -> (r: bool)
    ensures
        r <==> forall|i: int| 0 <= i < buf@.len() ==> (#[trigger] buf@[i]).item is Some,
{
    let moments = buf.inner();
    let mut i: usize = 0;
    while i < moments.len()
        invariant
            moments@ == buf@,
            i <= buf@.len(),
            forall|j: int| 0 <= j < i ==> (#[trigger] buf@[j]).item is Some,
        decreases buf@.len() - i,
    {
        if moments[i].item.is_none() {
            return false;
        }
        i += 1;
    }
    true
}

} // verus!
