use bevy_mod_time_travel::continuum::Timeline;
use bevy_mod_time_travel::duration::Duration;
use bevy_mod_time_travel::interpolation::{Interpolated, InterpolationVariables};
use bevy_mod_time_travel::registration::{component_registration, resource_registration, ScheduleKind};
use bevy_mod_time_travel::schedules::{OutOfTimelineRangePolicy, TickRestorePolicy, TimeTravelSchedules};
use bevy_mod_time_travel::timekeep::{ContinuumTime, Timekeep};
use bevy_mod_time_travel::interpolation::InterpolatedContinuum;
use bevy_mod_time_travel::{registration::AlreadyRegisteredError, OutOfRecordedRangeError};

fn secs(secs: u64) -> Duration {
    Duration::from_secs(secs)
}

#[test]
fn interpolation_variable_defaults() {
    let v = InterpolationVariables::default();
    assert!(!v.account_for_changes);
    assert!(v.run_interpolation_systems);
    assert_eq!(v.rewind_policy, TickRestorePolicy::RestoreOldTicks);
    assert_eq!(v.store_extra_backlog, Duration::zero());
}

#[test]
fn return_to_fixed_plans() {
    let v = InterpolationVariables::default();
    let plan = v.return_to_fixed_plan(secs(5), Some(secs(4)), Some(secs(3))).unwrap();
    assert_eq!(plan.account_for_changes, None);
    assert_eq!(plan.rewind.to, secs(3));
    assert_eq!(plan.rewind.tick_restore_policy, TickRestorePolicy::RestoreOldTicks);
    assert_eq!(plan.rewind.out_of_timeline_range_policy, OutOfTimelineRangePolicy::DoNothing);
    assert_eq!(v.return_to_fixed_plan(secs(5), Some(secs(5)), Some(secs(3))), None);
    assert_eq!(v.return_to_fixed_plan(secs(5), None, Some(secs(3))), None);
    assert_eq!(v.return_to_fixed_plan(secs(5), Some(secs(4)), None), None);
    let off = InterpolationVariables {
        run_interpolation_systems: false,
        ..v
    };
    assert_eq!(off.return_to_fixed_plan(secs(5), Some(secs(4)), Some(secs(3))), None);
    let accounting = InterpolationVariables {
        account_for_changes: true,
        rewind_policy: TickRestorePolicy::Bypass,
        ..v
    };
    let plan = accounting.return_to_fixed_plan(secs(5), Some(secs(4)), Some(secs(3))).unwrap();
    assert_eq!(plan.account_for_changes, Some(1));
    assert_eq!(plan.rewind.tick_restore_policy, TickRestorePolicy::Bypass);
}

#[test]
fn record_new_state_plans() {
    let v = InterpolationVariables {
        store_extra_backlog: secs(1),
        ..InterpolationVariables::default()
    };
    let plan = v.record_new_state_plan(secs(10), secs(2)).unwrap();
    assert!(!plan.discard_changes_first);
    assert_eq!(plan.rotate.delete_before, secs(7));
    assert_eq!(plan.rotate.current_time, secs(10));
    let plan = v.record_new_state_plan(secs(2), secs(2)).unwrap();
    assert_eq!(plan.rotate.delete_before, Duration::zero());
    assert_eq!(plan.rotate.current_time, secs(2));
    let accounting = InterpolationVariables {
        account_for_changes: true,
        ..v
    };
    assert!(accounting.record_new_state_plan(secs(10), secs(2)).unwrap().discard_changes_first);
    let off = InterpolationVariables {
        run_interpolation_systems: false,
        ..v
    };
    assert_eq!(off.record_new_state_plan(secs(10), Duration::zero()), None);
}

#[test]
fn perform_interpolation_plans() {
    let v = InterpolationVariables::default();
    let plan = v.perform_interpolation_plan(secs(10), secs(1), secs(2), None).unwrap();
    assert_eq!(plan.account_for_changes, None);
    assert!(!plan.discard_changes_after);
    let to = plan.interpolate.unwrap();
    assert_eq!(to.to, secs(9));
    assert_eq!(to.out_of_timeline_range_policy, OutOfTimelineRangePolicy::DoNothing);
    let plan = v.perform_interpolation_plan(secs(1), secs(0), secs(2), Some(secs(4))).unwrap();
    assert_eq!(plan.interpolate.unwrap().to, Duration::zero());
    let plan = v.perform_interpolation_plan(secs(10), secs(1), secs(2), Some(secs(9))).unwrap();
    assert_eq!(plan.interpolate, None);
    let accounting = InterpolationVariables {
        account_for_changes: true,
        ..v
    };
    let plan = accounting.perform_interpolation_plan(secs(10), secs(1), secs(2), Some(secs(9))).unwrap();
    assert_eq!(plan.account_for_changes, Some(2));
    assert!(plan.discard_changes_after);
    let off = InterpolationVariables {
        run_interpolation_systems: false,
        ..v
    };
    assert_eq!(off.perform_interpolation_plan(secs(10), secs(1), Duration::zero(), None), None);
}

#[test]
fn component_registration_schedules() {
    assert_eq!(component_registration(true, false, false), Err(AlreadyRegisteredError));
    assert_eq!(
        component_registration(false, false, false),
        Ok(vec![
            ScheduleKind::RotatingBuffers,
            ScheduleKind::Rewinding,
            ScheduleKind::DeletingAfter,
            ScheduleKind::Clearing,
            ScheduleKind::AccountingForChanges,
            ScheduleKind::CleaningUpEmptyDetecting,
            ScheduleKind::CleaningUpEmptyPerforming,
            ScheduleKind::Interpolating,
        ])
    );
    assert_eq!(
        component_registration(false, true, true),
        Ok(vec![
            ScheduleKind::RotatingBuffers,
            ScheduleKind::Rewinding,
            ScheduleKind::DeletingAfter,
            ScheduleKind::Clearing,
            ScheduleKind::AccountingForChanges,
            ScheduleKind::CleaningUpEmptyDetecting,
            ScheduleKind::CleaningUpDisabledEntities,
            ScheduleKind::Interpolating,
        ])
    );
}

#[test]
fn resource_registration_schedules() {
    assert_eq!(resource_registration(true), Err(AlreadyRegisteredError));
    assert_eq!(
        resource_registration(false),
        Ok(vec![
            ScheduleKind::RotatingBuffers,
            ScheduleKind::Rewinding,
            ScheduleKind::DeletingAfter,
            ScheduleKind::Clearing,
            ScheduleKind::AccountingForChanges,
            ScheduleKind::CleaningUpEmptyPerforming,
            ScheduleKind::Interpolating,
        ])
    );
}

#[test]
fn registering_twice_fails() {
    let first = component_registration(false, false, false).unwrap();
    let registered = first.contains(&ScheduleKind::RotatingBuffers);
    assert!(registered);
    assert_eq!(component_registration(registered, true, false), Err(AlreadyRegisteredError));
}

#[test]
fn schedule_labels() {
    assert_eq!(
        ScheduleKind::Interpolating.label(InterpolatedContinuum),
        TimeTravelSchedules::Interpolating(InterpolatedContinuum)
    );
    assert_eq!(
        ScheduleKind::CleaningUpDisabledEntities.label(InterpolatedContinuum),
        TimeTravelSchedules::CleaningUpDisabledEntities(InterpolatedContinuum)
    );
}

#[test]
fn interpolated_timeline() {
    let mut timeline = Interpolated::<i32>::default();
    assert!(timeline.is_empty());
    assert!(!timeline.discontinuity());
    timeline.teleported = true;
    assert!(timeline.discontinuity());
    timeline.reset_discontinuity();
    assert!(!timeline.discontinuity());
}

#[test]
fn timekeep_starts_empty() {
    let keep = Timekeep::with_continuum(InterpolatedContinuum);
    assert!(keep.is_empty());
    let time = ContinuumTime::<InterpolatedContinuum>::default();
    assert_eq!(time.time, Duration::zero());
}

#[test]
fn error_messages() {
    assert_eq!(
        OutOfRecordedRangeError.message(),
        "Specified time is outside of recorded range"
    );
    assert_eq!(AlreadyRegisteredError.message(), "Timeline was already registered");
}
