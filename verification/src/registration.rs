//! What registering a timeline into a world adds to the schedules of its continuum.

use vstd::prelude::*;

use crate::continuum::Continuum;
use crate::schedules::TimeTravelSchedules;

verus! {

/// Error that signifies that the timeline being registered has already been registered.
#[derive(Clone, Copy, Debug, PartialEq, Eq, Structural, PartialOrd, Ord, Hash)]
pub struct AlreadyRegisteredError;

impl AlreadyRegisteredError {
    /// A short description of this error.
    pub fn message(&self) -> (s: &'static str)
        ensures
            s@ == "Timeline was already registered"@,
    {
        "Timeline was already registered"
    }
}

/// Stands for an interpolation or reflection function that was not specified (yet) when
/// registering a timeline.
#[derive(Clone, Copy, Debug)]
pub struct Unspecified;

/// The kinds of time travel schedules of a continuum, one for each variant of
/// [`TimeTravelSchedules`].
#[derive(Clone, Copy, Debug, PartialEq, Eq, Structural)]
pub enum ScheduleKind {
    /// [`TimeTravelSchedules::RotatingBuffers`].
    RotatingBuffers,
    /// [`TimeTravelSchedules::Rewinding`].
    Rewinding,
    /// [`TimeTravelSchedules::Interpolating`].
    Interpolating,
    /// [`TimeTravelSchedules::DeletingAfter`].
    DeletingAfter,
    /// [`TimeTravelSchedules::Clearing`].
    Clearing,
    /// [`TimeTravelSchedules::AccountingForChanges`].
    AccountingForChanges,
    /// [`TimeTravelSchedules::CleaningUpEmptyDetecting`].
    CleaningUpEmptyDetecting,
    /// [`TimeTravelSchedules::CleaningUpEmptyPerforming`].
    CleaningUpEmptyPerforming,
    /// [`TimeTravelSchedules::CleaningUpDisabledEntities`].
    CleaningUpDisabledEntities,
}

/// The schedule of kind `kind` for the continuum `c`.
pub open spec fn label_of<C: Continuum>(kind: ScheduleKind, c: C) -> TimeTravelSchedules<C> {
    match kind {
        ScheduleKind::RotatingBuffers => TimeTravelSchedules::RotatingBuffers(c),
        ScheduleKind::Rewinding => TimeTravelSchedules::Rewinding(c),
        ScheduleKind::Interpolating => TimeTravelSchedules::Interpolating(c),
        ScheduleKind::DeletingAfter => TimeTravelSchedules::DeletingAfter(c),
        ScheduleKind::Clearing => TimeTravelSchedules::Clearing(c),
        ScheduleKind::AccountingForChanges => TimeTravelSchedules::AccountingForChanges(c),
        ScheduleKind::CleaningUpEmptyDetecting => TimeTravelSchedules::CleaningUpEmptyDetecting(c),
        ScheduleKind::CleaningUpEmptyPerforming => TimeTravelSchedules::CleaningUpEmptyPerforming(
            c,
        ),
        ScheduleKind::CleaningUpDisabledEntities => TimeTravelSchedules::CleaningUpDisabledEntities(
            c,
        ),
    }
}

/// Each kind names the schedule variant of the same name, for the same continuum; so no two
/// kinds name the same schedule.
pub proof fn lemma_label_names_same_variant<C: Continuum>(c: C, k1: ScheduleKind, k2: ScheduleKind)
    ensures
        label_of(ScheduleKind::RotatingBuffers, c) == TimeTravelSchedules::RotatingBuffers(c),
        label_of(ScheduleKind::Rewinding, c) == TimeTravelSchedules::Rewinding(c),
        label_of(ScheduleKind::Interpolating, c) == TimeTravelSchedules::Interpolating(c),
        label_of(ScheduleKind::DeletingAfter, c) == TimeTravelSchedules::DeletingAfter(c),
        label_of(ScheduleKind::Clearing, c) == TimeTravelSchedules::Clearing(c),
        label_of(ScheduleKind::AccountingForChanges, c) == TimeTravelSchedules::AccountingForChanges(
            c,
        ),
        label_of(ScheduleKind::CleaningUpEmptyDetecting, c)
            == TimeTravelSchedules::CleaningUpEmptyDetecting(c),
        label_of(ScheduleKind::CleaningUpEmptyPerforming, c)
            == TimeTravelSchedules::CleaningUpEmptyPerforming(c),
        label_of(ScheduleKind::CleaningUpDisabledEntities, c)
            == TimeTravelSchedules::CleaningUpDisabledEntities(c),
        label_of(k1, c) == label_of(k2, c) ==> k1 == k2,
{
}

impl ScheduleKind {
    /// The schedule of this kind for the continuum `continuum`.
    pub fn label<C: Continuum>(self, continuum: C) -> (l: TimeTravelSchedules<C>)
        ensures
            l == label_of(self, continuum),
    {
        match self {
            ScheduleKind::RotatingBuffers => TimeTravelSchedules::RotatingBuffers(continuum),
            ScheduleKind::Rewinding => TimeTravelSchedules::Rewinding(continuum),
            ScheduleKind::Interpolating => TimeTravelSchedules::Interpolating(continuum),
            ScheduleKind::DeletingAfter => TimeTravelSchedules::DeletingAfter(continuum),
            ScheduleKind::Clearing => TimeTravelSchedules::Clearing(continuum),
            ScheduleKind::AccountingForChanges => TimeTravelSchedules::AccountingForChanges(
                continuum,
            ),
            ScheduleKind::CleaningUpEmptyDetecting => TimeTravelSchedules::CleaningUpEmptyDetecting(
                continuum,
            ),
            ScheduleKind::CleaningUpEmptyPerforming => TimeTravelSchedules::CleaningUpEmptyPerforming(
                continuum,
            ),
            ScheduleKind::CleaningUpDisabledEntities => TimeTravelSchedules::CleaningUpDisabledEntities(
                continuum,
            ),
        }
    }
}

/// The schedules, in order, to which registering a component timeline adds one system of that
/// timeline: every per-timeline schedule, the clean-up performer (one per continuum) only if the
/// continuum has none yet, and the clean-up of disabled entities only for a timeline of the
/// "disabled" marker.
pub open spec fn component_schedules(has_clean_up_performer: bool, item_is_disabled: bool) -> Seq<
    ScheduleKind,
> {
    seq![
        ScheduleKind::RotatingBuffers,
        ScheduleKind::Rewinding,
        ScheduleKind::DeletingAfter,
        ScheduleKind::Clearing,
        ScheduleKind::AccountingForChanges,
        ScheduleKind::CleaningUpEmptyDetecting,
    ] + (if has_clean_up_performer {
        Seq::<ScheduleKind>::empty()
    } else {
        seq![ScheduleKind::CleaningUpEmptyPerforming]
    }) + (if item_is_disabled {
        seq![ScheduleKind::CleaningUpDisabledEntities]
    } else {
        Seq::<ScheduleKind>::empty()
    }) + seq![ScheduleKind::Interpolating]
}

/// The schedules, in order, to which registering a resource timeline adds one system of that
/// timeline.
pub open spec fn resource_schedules() -> Seq<ScheduleKind> {
    seq![
        ScheduleKind::RotatingBuffers,
        ScheduleKind::Rewinding,
        ScheduleKind::DeletingAfter,
        ScheduleKind::Clearing,
        ScheduleKind::AccountingForChanges,
        ScheduleKind::CleaningUpEmptyPerforming,
        ScheduleKind::Interpolating,
    ]
}

/// Registering a component timeline: an error if the timeline is `already_registered` (its
/// buffer-rotating system is in the rotating schedule of its continuum), otherwise the schedules
/// to add one of its systems to, in order. `has_clean_up_performer` tells whether the clean-up
/// performing schedule of the continuum already has its system, and `item_is_disabled` whether
/// the item of the timeline is the "disabled" marker.
pub fn component_registration(
    already_registered: bool,
    has_clean_up_performer: bool,
    item_is_disabled: bool,
) -> (r: Result<Vec<ScheduleKind>, AlreadyRegisteredError>)
    ensures
        r is Err <==> already_registered,
        r matches Ok(v) ==> v@ == component_schedules(has_clean_up_performer, item_is_disabled),
{
    if already_registered {
        return Err(AlreadyRegisteredError);
    }
    let mut kinds: Vec<ScheduleKind> = Vec::new();
    kinds.push(ScheduleKind::RotatingBuffers);
    kinds.push(ScheduleKind::Rewinding);
    kinds.push(ScheduleKind::DeletingAfter);
    kinds.push(ScheduleKind::Clearing);
    kinds.push(ScheduleKind::AccountingForChanges);
    kinds.push(ScheduleKind::CleaningUpEmptyDetecting);
    if !has_clean_up_performer {
        kinds.push(ScheduleKind::CleaningUpEmptyPerforming);
    }
    if item_is_disabled {
        kinds.push(ScheduleKind::CleaningUpDisabledEntities);
    }
    kinds.push(ScheduleKind::Interpolating);
    assert(kinds@ =~= component_schedules(has_clean_up_performer, item_is_disabled));
    Ok(kinds)
}

/// Registering a resource timeline: an error if the timeline is `already_registered` (its
/// buffer-rotating system is in the rotating schedule of its continuum), otherwise the schedules
/// to add one of its systems to, in order.
pub fn resource_registration(already_registered: bool) -> (r: Result<
    Vec<ScheduleKind>,
    AlreadyRegisteredError,
>)
    ensures
        r is Err <==> already_registered,
        r matches Ok(v) ==> v@ == resource_schedules(),
{
    if already_registered {
        return Err(AlreadyRegisteredError);
    }
    let mut kinds: Vec<ScheduleKind> = Vec::new();
    kinds.push(ScheduleKind::RotatingBuffers);
    kinds.push(ScheduleKind::Rewinding);
    kinds.push(ScheduleKind::DeletingAfter);
    kinds.push(ScheduleKind::Clearing);
    kinds.push(ScheduleKind::AccountingForChanges);
    kinds.push(ScheduleKind::CleaningUpEmptyPerforming);
    kinds.push(ScheduleKind::Interpolating);
    assert(kinds@ =~= resource_schedules());
    Ok(kinds)
}

/// Registering a component timeline adds the clean-up of disabled entities exactly when its item
/// is the "disabled" marker, and the clean-up performer exactly when the continuum has none yet,
/// each regardless of the other; every per-timeline schedule is always included, interpolation
/// last, and nothing appears twice.
pub proof fn lemma_component_schedules_contents(has_clean_up_performer: bool, item_is_disabled: bool)
    ensures
        ({
            let s = component_schedules(has_clean_up_performer, item_is_disabled);
            &&& s.contains(ScheduleKind::CleaningUpDisabledEntities) <==> item_is_disabled
            &&& s.contains(ScheduleKind::CleaningUpEmptyPerforming) <==> !has_clean_up_performer
            &&& s.contains(ScheduleKind::RotatingBuffers)
            &&& s.contains(ScheduleKind::Rewinding)
            &&& s.contains(ScheduleKind::DeletingAfter)
            &&& s.contains(ScheduleKind::Clearing)
            &&& s.contains(ScheduleKind::AccountingForChanges)
            &&& s.contains(ScheduleKind::CleaningUpEmptyDetecting)
            &&& s.len() > 0 && s[s.len() - 1] == ScheduleKind::Interpolating
            &&& s.no_duplicates()
        }),
{
    let s = component_schedules(has_clean_up_performer, item_is_disabled);
    let base = seq![
        ScheduleKind::RotatingBuffers,
        ScheduleKind::Rewinding,
        ScheduleKind::DeletingAfter,
        ScheduleKind::Clearing,
        ScheduleKind::AccountingForChanges,
        ScheduleKind::CleaningUpEmptyDetecting,
    ];
    let t = if has_clean_up_performer {
        base
    } else {
        base.push(ScheduleKind::CleaningUpEmptyPerforming)
    };
    let u = if item_is_disabled {
        t.push(ScheduleKind::CleaningUpDisabledEntities)
    } else {
        t
    };
    assert(s =~= u.push(ScheduleKind::Interpolating));
    assert(s[0] == ScheduleKind::RotatingBuffers);
    assert(s[1] == ScheduleKind::Rewinding);
    assert(s[2] == ScheduleKind::DeletingAfter);
    assert(s[3] == ScheduleKind::Clearing);
    assert(s[4] == ScheduleKind::AccountingForChanges);
    assert(s[5] == ScheduleKind::CleaningUpEmptyDetecting);
    if !has_clean_up_performer {
        assert(s[6] == ScheduleKind::CleaningUpEmptyPerforming);
    }
    if item_is_disabled {
        assert(s[s.len() - 2] == ScheduleKind::CleaningUpDisabledEntities);
    }
    assert forall|i: int| 0 <= i < s.len() implies (s[i] == ScheduleKind::CleaningUpDisabledEntities
        ==> item_is_disabled && i == s.len() - 2) && (s[i]
        == ScheduleKind::CleaningUpEmptyPerforming ==> !has_clean_up_performer && i == 6) && (s[i]
        == ScheduleKind::Interpolating ==> i == s.len() - 1) by {
        if i < 6 {
        } else if i == s.len() - 1 {
        } else if !has_clean_up_performer && i == 6 {
        } else {
            assert(item_is_disabled && i == s.len() - 2);
        }
    }
    assert forall|i: int, j: int| 0 <= i < s.len() && 0 <= j < s.len() && i != j implies s[i]
        != s[j] by {
        if i < 6 && j < 6 {
        }
    }
}

/// Registering a resource timeline adds one system to each of the seven schedules a resource
/// timeline uses, never to the per-entity detection or the disabled-entity clean-up, and nothing
/// twice.
pub proof fn lemma_resource_schedules_contents()
    ensures
        resource_schedules().len() == 7,
        !resource_schedules().contains(ScheduleKind::CleaningUpDisabledEntities),
        !resource_schedules().contains(ScheduleKind::CleaningUpEmptyDetecting),
        resource_schedules().no_duplicates(),
{
    let s = resource_schedules();
    assert forall|i: int| 0 <= i < s.len() implies s[i] != ScheduleKind::CleaningUpDisabledEntities
        && s[i] != ScheduleKind::CleaningUpEmptyDetecting by {
        if i == 0 {
        } else if i == 1 {
        } else if i == 2 {
        } else if i == 3 {
        } else if i == 4 {
        } else if i == 5 {
        } else {
        }
    }
}

/// A registration that succeeded adds the buffer-rotating system, which is what marks a timeline
/// as registered: a second registration of the same timeline observes it and fails.
pub proof fn lemma_registration_marks_registered(
    has_clean_up_performer: bool,
    item_is_disabled: bool,
)
    ensures
        component_schedules(has_clean_up_performer, item_is_disabled).contains(
            ScheduleKind::RotatingBuffers,
        ),
        resource_schedules().contains(ScheduleKind::RotatingBuffers),
{
    assert(component_schedules(has_clean_up_performer, item_is_disabled)[0]
        == ScheduleKind::RotatingBuffers);
    assert(resource_schedules()[0] == ScheduleKind::RotatingBuffers);
}

} // verus!
