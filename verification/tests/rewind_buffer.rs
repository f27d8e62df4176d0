use bevy_ecs::change_detection::{ComponentTicks, Tick};
use bevy_mod_time_travel::duration::Duration;
use bevy_mod_time_travel::rewind_buffer::{
    ChangeDetectionState, FindForInterpResult, InterpolationPlan, LastDetectedChange, Moment,
    RewindBuffer,
};
use bevy_mod_time_travel::OutOfRecordedRangeError;

/// `Duration::from_secs`, for brevity.
fn secs(secs: u64) -> Duration {
    Duration::from_secs(secs)
}

/// A moment without an item at the given second.
fn dummymoment(seconds: u64) -> Moment<()> {
    Moment {
        time: secs(seconds),
        snap_to: false,
        item: None,
    }
}

fn state(tick: u32) -> ChangeDetectionState {
    ChangeDetectionState {
        ticks: ComponentTicks::new(Tick::new(tick)),
        change: LastDetectedChange::NoChange,
    }
}

fn moment(seconds: u64, value: Option<i32>, snap_to: bool) -> Moment<i32> {
    Moment {
        time: secs(seconds),
        snap_to,
        item: value.map(|v| (state(1), v)),
    }
}

#[test]
fn insert() {
    let mut buf = RewindBuffer::<()>::new();

    buf.push(dummymoment(10));
    buf.push(dummymoment(20));

    let mut iter = buf.iter();

    assert_eq!(iter.next().unwrap().time, secs(10));
    assert_eq!(iter.next().unwrap().time, secs(20));
    assert!(iter.next().is_none());
}

#[test]
fn find_for_interpolation() {
    let mut buf = RewindBuffer::<()>::new();

    buf.push(dummymoment(10));
    buf.push(dummymoment(20));
    buf.push(dummymoment(30));

    if let Ok(FindForInterpResult::BeforeAndAfter(
        Moment { time: before, .. },
        Moment { time: after, .. },
    )) = buf.find_for_interpolation(secs(15))
    {
        assert_eq!(*before, secs(10));
        assert_eq!(*after, secs(20));
    } else {
        panic!("before and after epic fail");
    }

    if let Ok(FindForInterpResult::OnlyExact(Moment { time: exact, .. })) =
        buf.find_for_interpolation(secs(10))
    {
        assert_eq!(*exact, secs(10));
    } else {
        panic!("only exact epic fail");
    }

    if let Ok(FindForInterpResult::PreviousAndExact(
        Moment { time: previous, .. },
        Moment { time: exact, .. },
    )) = buf.find_for_interpolation(secs(20))
    {
        assert_eq!(*previous, secs(10));
        assert_eq!(*exact, secs(20));
    } else {
        panic!("previous and exact epic fail");
    }

    let Err(OutOfRecordedRangeError) = buf.find_for_interpolation(secs(0)) else {
        panic!("out of range epic fail");
    };

    let Err(OutOfRecordedRangeError) = buf.find_for_interpolation(secs(99999)) else {
        panic!("out of range epic fail");
    };
}

#[test]
fn empty_buffer_is_out_of_range() {
    let buf = RewindBuffer::<i32>::new();
    assert!(buf.is_empty());
    assert_eq!(buf.len(), 0);
    assert!(buf.first_moment().is_none());
    assert!(buf.last_moment().is_none());
    assert!(buf.represented_range().is_none());
    assert!(!buf.time_in_range(secs(0)));
    assert!(buf.find_for_interpolation(secs(0)).is_err());
    assert!(buf.rewind_to(secs(0)).is_err());
    assert!(buf.plan_interpolation(secs(0)).is_err());
}

#[test]
fn represented_range_and_time_in_range() {
    let mut buf = RewindBuffer::<i32>::with_capacity(4);
    buf.push(moment(5, Some(1), false));
    let range = buf.represented_range().unwrap();
    assert_eq!(*range.start(), secs(5));
    assert_eq!(*range.end(), secs(5));
    buf.push(moment(9, Some(2), false));
    let range = buf.represented_range().unwrap();
    assert_eq!(*range.start(), secs(5));
    assert_eq!(*range.end(), secs(9));
    assert!(buf.time_in_range(secs(5)));
    assert!(buf.time_in_range(secs(7)));
    assert!(buf.time_in_range(secs(9)));
    assert!(!buf.time_in_range(secs(4)));
    assert!(!buf.time_in_range(secs(10)));
}

#[test]
fn rewind_to_picks_the_first_moment_at_or_after() {
    let mut buf = RewindBuffer::<i32>::new();
    buf.push(moment(10, Some(1), false));
    buf.push(moment(20, Some(2), false));
    buf.push(moment(30, None, false));
    assert_eq!(buf.rewind_to(secs(10)).unwrap().time, secs(10));
    assert_eq!(buf.rewind_to(secs(11)).unwrap().time, secs(20));
    assert_eq!(buf.rewind_to(secs(20)).unwrap().time, secs(20));
    assert_eq!(buf.rewind_to(secs(29)).unwrap().time, secs(30));
    assert_eq!(buf.rewind_to(secs(31)).err(), Some(OutOfRecordedRangeError));
    assert_eq!(buf.rewind_to(secs(9)).err(), Some(OutOfRecordedRangeError));
}

#[test]
fn find_moment_exact_finds_only_exact_times() {
    let mut buf = RewindBuffer::<i32>::new();
    buf.push(moment(10, Some(1), false));
    buf.push(moment(20, Some(2), false));
    assert_eq!(buf.find_moment_exact(secs(20)).unwrap().item_ref(), Some(&2));
    assert!(buf.find_moment_exact(secs(15)).is_none());
}

#[test]
fn plan_interpolation_blends_between_neighbours() {
    let mut buf = RewindBuffer::<i32>::new();
    buf.push(moment(10, Some(100), false));
    buf.push(moment(20, Some(200), false));
    match buf.plan_interpolation(secs(15)).unwrap() {
        InterpolationPlan::Blend { earlier, later, elapsed, before_earlier, span } => {
            assert!(!before_earlier);
            assert_eq!(*earlier, 100);
            assert_eq!(*later, 200);
            assert_eq!(elapsed, secs(5));
            assert_eq!(span, secs(10));
        }
        other => panic!("expected a blend, got {:?}", other),
    }
}

#[test]
fn plan_interpolation_takes_exact_moment() {
    let mut buf = RewindBuffer::<i32>::new();
    buf.push(moment(10, Some(100), false));
    buf.push(moment(20, Some(200), false));
    buf.push(moment(30, Some(300), false));
    assert!(matches!(
        buf.plan_interpolation(secs(20)).unwrap(),
        InterpolationPlan::Take(Some(&200))
    ));
    assert!(matches!(
        buf.plan_interpolation(secs(10)).unwrap(),
        InterpolationPlan::Take(Some(&100))
    ));
}

#[test]
fn plan_interpolation_picks_b_when_an_item_is_missing() {
    let mut buf = RewindBuffer::<i32>::new();
    buf.push(moment(10, None, false));
    buf.push(moment(20, Some(200), false));
    buf.push(moment(30, None, false));
    assert!(matches!(
        buf.plan_interpolation(secs(15)).unwrap(),
        InterpolationPlan::Take(Some(&200))
    ));
    assert!(matches!(
        buf.plan_interpolation(secs(25)).unwrap(),
        InterpolationPlan::Take(None)
    ));
}

#[test]
fn plan_interpolation_snaps_to_teleported_moment() {
    let mut buf = RewindBuffer::<i32>::new();
    buf.push(moment(10, Some(100), false));
    buf.push(moment(20, Some(200), true));
    assert!(matches!(
        buf.plan_interpolation(secs(11)).unwrap(),
        InterpolationPlan::Take(Some(&200))
    ));
}

#[test]
fn moment_plans_do_not_depend_on_order() {
    let a = moment(10, Some(1), false);
    let b = moment(30, Some(3), false);
    for (x, y) in [(&a, &b), (&b, &a)] {
        match x.plan_interpolation_against(y, secs(20)) {
            InterpolationPlan::Blend { earlier, later, elapsed, before_earlier, span } => {
                assert!(!before_earlier);
                assert_eq!((*earlier, *later), (1, 3));
                assert_eq!(elapsed, secs(10));
                assert_eq!(span, secs(20));
            }
            other => panic!("expected a blend, got {:?}", other),
        }
    }
    assert!(matches!(
        a.plan_interpolation_against_unchecked(&b, secs(10)),
        InterpolationPlan::Take(Some(&1))
    ));
    assert!(matches!(
        a.plan_interpolation_against_unchecked(&b, secs(30)),
        InterpolationPlan::Take(Some(&3))
    ));
    // Unchecked: the target may lie past the later moment.
    match a.plan_interpolation_against_unchecked(&b, secs(50)) {
        InterpolationPlan::Blend { elapsed, before_earlier, span, .. } => {
            assert!(!before_earlier);
            assert_eq!(elapsed, secs(40));
            assert_eq!(span, secs(20));
        }
        other => panic!("expected a blend, got {:?}", other),
    }
    // Unchecked: the target may lie before both moments, for a negative factor, in either order.
    for (x, y) in [(&a, &b), (&b, &a)] {
        match x.plan_interpolation_against_unchecked(y, secs(4)) {
            InterpolationPlan::Blend { earlier, later, elapsed, before_earlier, span } => {
                assert_eq!((*earlier, *later), (1, 3));
                assert!(before_earlier);
                assert_eq!(elapsed, secs(6));
                assert_eq!(span, secs(20));
            }
            other => panic!("expected a blend, got {:?}", other),
        }
    }
}

#[test]
fn find_result_pick_b_and_plan() {
    let before = moment(10, Some(1), false);
    let after = moment(20, Some(2), true);
    let found = FindForInterpResult::BeforeAndAfter(&before, &after);
    assert_eq!(found.pick_b().time, secs(20));
    assert!(matches!(
        found.plan_interpolation(secs(15)),
        Ok(InterpolationPlan::Take(Some(&2)))
    ));
    assert_eq!(
        found.plan_interpolation(secs(25)).err(),
        Some(OutOfRecordedRangeError)
    );
    let exact = FindForInterpResult::OnlyExact(&before);
    assert!(matches!(
        exact.plan_interpolation(secs(10)),
        Ok(InterpolationPlan::Take(Some(&1)))
    ));
    assert!(exact.plan_interpolation(secs(11)).is_err());
}

#[test]
fn delete_before_and_after() {
    let mut buf = RewindBuffer::<i32>::new();
    for s in [10, 20, 30, 40] {
        buf.push(moment(s, Some(s as i32), false));
    }
    buf.delete_before(secs(20));
    assert_eq!(buf.len(), 3);
    assert_eq!(buf.first_moment().unwrap().time, secs(20));
    buf.delete_after(secs(35));
    assert_eq!(buf.len(), 2);
    assert_eq!(buf.last_moment().unwrap().time, secs(30));
    buf.delete_after(secs(0));
    assert!(buf.is_empty());
}

#[test]
fn rotate_drops_old_and_appends() {
    let mut buf = RewindBuffer::<i32>::new();
    buf.push(moment(10, Some(1), false));
    buf.push(moment(20, Some(2), false));
    buf.rotate(secs(15), moment(30, Some(3), false));
    let times: Vec<Duration> = buf.iter().map(|m| m.time).collect();
    assert_eq!(times, vec![secs(20), secs(30)]);
    // Everything older is dropped, so even an earlier time can be recorded afterwards.
    buf.rotate(secs(100), moment(25, None, false));
    assert_eq!(buf.len(), 1);
    assert_eq!(buf.first_moment().unwrap().time, secs(25));
}

#[test]
fn enforce_for_n_last_overwrites_only_the_tail() {
    let mut buf = RewindBuffer::<i32>::new();
    for s in [1, 2, 3] {
        buf.push(moment(s, Some(s as i32), false));
    }
    let st = state(7);
    buf.enforce_for_n_last(2, Some((st, &99)));
    let items: Vec<Option<i32>> = buf.iter().map(|m| m.clone_item()).collect();
    assert_eq!(items, vec![Some(1), Some(99), Some(99)]);
    buf.enforce_for_n_last(10, None);
    assert!(!buf.has_present_items());
    assert_eq!(buf.len(), 3);
}

#[test]
fn has_present_items_and_clear() {
    let mut buf = RewindBuffer::<i32>::new();
    buf.push(moment(1, None, false));
    assert!(!buf.has_present_items());
    buf.push(moment(2, Some(5), false));
    assert!(buf.has_present_items());
    let copy = buf.clone();
    buf.clear();
    assert!(buf.is_empty());
    assert_eq!(copy.len(), 2);
    assert_eq!(copy.inner().len(), 2);
    assert_eq!((&copy).into_iter().count(), 2);
}

#[test]
fn moment_items_and_proxy() {
    let mut m = moment(3, Some(4), false);
    assert_eq!(m.clone_item(), Some(4));
    if let Some(x) = m.item_mut() {
        *x = 8;
    }
    assert_eq!(m.item_ref(), Some(&8));
    let proxy = m.as_proxy();
    *proxy.snap_to = true;
    *proxy.item = None;
    assert_eq!(*proxy.time, secs(3));
    let copy = proxy.clone_to_moment();
    assert!(copy.snap_to);
    assert!(copy.item.is_none());
    assert!(m.snap_to);
    assert_eq!(m.item_ref(), None);
    let d = Moment::<i32>::default();
    assert_eq!(d.time, secs(0));
    assert!(d.item.is_none());
}

#[test]
fn observed_change_prefers_added() {
    assert_eq!(LastDetectedChange::observed(true, true), LastDetectedChange::Added);
    assert_eq!(LastDetectedChange::observed(false, true), LastDetectedChange::Changed);
    assert_eq!(LastDetectedChange::observed(false, false), LastDetectedChange::NoChange);
}

#[test]
fn replace_state_at_keeps_time() {
    let mut buf = RewindBuffer::<i32>::new();
    buf.push(moment(10, Some(1), false));
    buf.push(moment(20, Some(2), false));
    let (snap, item) = buf.replace_state_at(1, true, None);
    assert!(!snap);
    assert_eq!(item.map(|x| x.1), Some(2));
    let last = buf.last_moment().unwrap();
    assert_eq!(last.time, secs(20));
    assert!(last.snap_to);
    assert!(last.item.is_none());
    assert_eq!(buf.first_moment().unwrap().item_ref(), Some(&1));
}

#[test]
fn rotate_keeps_the_rest_and_adds_one() {
    let mut buf = RewindBuffer::<i32>::new();
    buf.push(moment(1, None, false));
    buf.rotate(secs(0), moment(5, None, false));
    assert_eq!(buf.len(), 2);
}
