use bevy_ecs::change_detection::{ComponentTicks, Tick};
use bevy_mod_time_travel::duration::Duration;
use bevy_mod_time_travel::interpolation::InterpolatedContinuum;
use bevy_mod_time_travel::rewind_buffer::{
    ChangeDetectionState, InterpolationPlan, LastDetectedChange, Moment, RewindBuffer, TickUpdate,
};
use bevy_mod_time_travel::schedules::{
    present_throughout, change_response, ChangeResponse, CleanUpAction, InterpolateTo, ItemChange, OutOfTimelineRangePolicy,
    RewindAction, RewindTo, TickRestorePolicy,
};

fn secs(secs: u64) -> Duration {
    Duration::from_secs(secs)
}

fn state(tick: u32, change: LastDetectedChange) -> ChangeDetectionState {
    ChangeDetectionState {
        ticks: ComponentTicks::new(Tick::new(tick)),
        change,
    }
}

fn buffer() -> RewindBuffer<i32> {
    let mut buf = RewindBuffer::new();
    buf.push(Moment {
        time: secs(10),
        snap_to: false,
        item: Some((state(3, LastDetectedChange::Added), 1)),
    });
    buf.push(Moment {
        time: secs(20),
        snap_to: false,
        item: Some((state(4, LastDetectedChange::Changed), 2)),
    });
    buf.push(Moment {
        time: secs(30),
        snap_to: false,
        item: None,
    });
    buf
}

fn rewind(to: u64, tick: TickRestorePolicy, range: OutOfTimelineRangePolicy) -> RewindTo<InterpolatedContinuum> {
    RewindTo {
        to: secs(to),
        tick_restore_policy: tick,
        out_of_timeline_range_policy: range,
        continuum: InterpolatedContinuum,
    }
}

#[test]
fn tick_updates_by_policy() {
    let changed = state(9, LastDetectedChange::Changed);
    let added = state(9, LastDetectedChange::Added);
    let unchanged = state(9, LastDetectedChange::NoChange);
    assert!(matches!(
        TickRestorePolicy::RestoreOldTicks.tick_update(&added, false),
        TickUpdate::Restore(t) if t.added.get() == 9
    ));
    assert!(matches!(
        TickRestorePolicy::Retrigger.tick_update(&changed, true),
        TickUpdate::RestoreAddedMarkChanged(_)
    ));
    assert!(matches!(
        TickRestorePolicy::Retrigger.tick_update(&added, true),
        TickUpdate::MarkAdded
    ));
    assert!(matches!(
        TickRestorePolicy::Retrigger.tick_update(&unchanged, true),
        TickUpdate::Restore(_)
    ));
    assert!(matches!(
        TickRestorePolicy::Adaptive.tick_update(&added, true),
        TickUpdate::Restore(_)
    ));
    assert!(matches!(
        TickRestorePolicy::Adaptive.tick_update(&added, false),
        TickUpdate::MarkAdded
    ));
    assert!(matches!(
        TickRestorePolicy::MarkAllChanged.tick_update(&unchanged, false),
        TickUpdate::MarkChanged
    ));
    assert!(matches!(
        TickRestorePolicy::Bypass.tick_update(&changed, false),
        TickUpdate::Leave
    ));
    assert!(TickRestorePolicy::Adaptive.do_we_care_about_latest_in_buffer());
    assert!(!TickRestorePolicy::Retrigger.do_we_care_about_latest_in_buffer());
    assert_eq!(TickRestorePolicy::default(), TickRestorePolicy::Adaptive);
    assert_eq!(
        OutOfTimelineRangePolicy::default(),
        OutOfTimelineRangePolicy::AssumeNone
    );
}

#[test]
fn item_changes() {
    assert_eq!(ItemChange::between(false, false), ItemChange::Keep);
    assert_eq!(ItemChange::between(false, true), ItemChange::Insert);
    assert_eq!(ItemChange::between(true, false), ItemChange::Remove);
    assert_eq!(ItemChange::between(true, true), ItemChange::Overwrite);
}

#[test]
fn rewind_actions() {
    let buf = buffer();
    let p = rewind(15, TickRestorePolicy::Retrigger, OutOfTimelineRangePolicy::AssumeNone);
    assert!(matches!(
        p.action_for(&buf, true),
        RewindAction::Overwrite(&2, TickUpdate::RestoreAddedMarkChanged(_))
    ));
    assert!(matches!(
        p.action_for(&buf, false),
        RewindAction::Insert(&2, TickUpdate::RestoreAddedMarkChanged(_))
    ));
    let p = rewind(25, TickRestorePolicy::Retrigger, OutOfTimelineRangePolicy::AssumeNone);
    assert!(matches!(p.action_for(&buf, true), RewindAction::Remove));
    assert!(matches!(p.action_for(&buf, false), RewindAction::Leave));
    let p = rewind(99, TickRestorePolicy::Retrigger, OutOfTimelineRangePolicy::AssumeNone);
    assert!(matches!(p.action_for(&buf, true), RewindAction::Remove));
    let p = rewind(99, TickRestorePolicy::Retrigger, OutOfTimelineRangePolicy::DoNothing);
    assert!(matches!(p.action_for(&buf, true), RewindAction::Leave));
    // Adaptive restores old ticks only for the latest moment.
    let p = rewind(10, TickRestorePolicy::Adaptive, OutOfTimelineRangePolicy::AssumeNone);
    assert!(matches!(
        p.action_for(&buf, true),
        RewindAction::Overwrite(&1, TickUpdate::MarkAdded)
    ));
    let mut last = RewindBuffer::new();
    last.push(Moment {
        time: secs(10),
        snap_to: false,
        item: Some((state(3, LastDetectedChange::Added), 1)),
    });
    assert!(matches!(
        p.action_for(&last, true),
        RewindAction::Overwrite(&1, TickUpdate::Restore(_))
    ));
}

#[test]
fn interpolate_plans() {
    let buf = buffer();
    let to = |t: u64, range| InterpolateTo {
        to: secs(t),
        out_of_timeline_range_policy: range,
        continuum: InterpolatedContinuum,
    };
    assert!(matches!(
        to(15, OutOfTimelineRangePolicy::AssumeNone).plan_for(&buf),
        Some(InterpolationPlan::Blend { earlier: &1, later: &2, .. })
    ));
    assert!(matches!(
        to(99, OutOfTimelineRangePolicy::AssumeNone).plan_for(&buf),
        Some(InterpolationPlan::Take(None))
    ));
    assert!(to(99, OutOfTimelineRangePolicy::DoNothing).plan_for(&buf).is_none());
}

#[test]
fn clean_up_decisions() {
    assert_eq!(CleanUpAction::decide(true, false), CleanUpAction::Despawn);
    assert_eq!(
        CleanUpAction::decide(true, true),
        CleanUpAction::RemoveMarkers {
            has_empty_marker: true
        }
    );
    assert_eq!(
        CleanUpAction::decide(false, true),
        CleanUpAction::RemoveMarkers {
            has_empty_marker: false
        }
    );
    let buf = buffer();
    assert!(!present_throughout(&buf));
    let mut full = RewindBuffer::new();
    full.push(Moment {
        time: secs(1),
        snap_to: false,
        item: Some((state(1, LastDetectedChange::NoChange), ())),
    });
    assert!(present_throughout(&full));
}

#[test]
fn clean_up_after_detection() {
    // Per timeline of an entity: whether it holds items; detection marks accordingly.
    let decide = |present: &[bool]| {
        let has_non_empty = present.iter().any(|p| *p);
        let has_empty = present.iter().any(|p| !*p);
        CleanUpAction::decide(has_empty, has_non_empty)
    };
    assert_eq!(decide(&[false, false]), CleanUpAction::Despawn);
    assert_eq!(
        decide(&[false, true]),
        CleanUpAction::RemoveMarkers {
            has_empty_marker: true
        }
    );
    assert_eq!(
        decide(&[true]),
        CleanUpAction::RemoveMarkers {
            has_empty_marker: false
        }
    );
}

#[test]
fn change_responses() {
    assert_eq!(change_response(2, true), ChangeResponse { flag_change: true, overwrite: true });
    assert_eq!(change_response(2, false), ChangeResponse { flag_change: false, overwrite: false });
    assert_eq!(change_response(0, true), ChangeResponse { flag_change: true, overwrite: false });
    assert_eq!(change_response(0, false), ChangeResponse { flag_change: false, overwrite: false });
}
