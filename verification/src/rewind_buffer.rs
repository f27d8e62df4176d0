//! Timestamped states of an item ([`Moment`]) and the ordered buffer that holds them
//! ([`RewindBuffer`]), with the searches used to rewind and interpolate.

use std::collections::VecDeque;
use std::collections::vec_deque::Iter;
use core::ops::RangeInclusive;

use bevy_ecs::change_detection::ComponentTicks;
use vstd::prelude::*;
use vstd::std_specs::iter::IteratorSpec;

use crate::duration::Duration;
use crate::OutOfRecordedRangeError;

verus! {

/// Declares `bevy_ecs::change_detection::ComponentTicks` as an opaque type: recorded moments
/// carry the change ticks of their item through without reading them.
#[verifier::external_type_specification]
#[verifier::external_body]
pub struct ExComponentTicks(ComponentTicks);

/// Last detected change between this and the previous moment.
#[derive(Clone, Copy, Debug, PartialEq, Eq, Structural, Hash)]
pub enum LastDetectedChange {
    /// No change was detected; this item is presumably identical to the last one.
    NoChange,
    /// The item was presumably changed between this and the previous moment.
    Changed,
    /// The item presumably did not exist in the previous moment and was added here.
    Added,
}

impl LastDetectedChange {
    /// The change to record for an item, given whether change detection reports it as added
    /// and as changed. Being added takes precedence over being changed.
    pub fn observed(is_added: bool, is_changed: bool) -> (c: LastDetectedChange)
        ensures
            c == (if is_added {
                LastDetectedChange::Added
            } else if is_changed {
                LastDetectedChange::Changed
            } else {
                LastDetectedChange::NoChange
            }),
    {
        if is_added {
            LastDetectedChange::Added
        } else if is_changed {
            LastDetectedChange::Changed
        } else {
            LastDetectedChange::NoChange
        }
    }
}

/// Recorded change detection state at the time a [`Moment<T>`] was saved.
#[derive(Clone, Copy, Debug)]
pub struct ChangeDetectionState {
    /// Change ticks of this item.
    pub ticks: ComponentTicks,
    /// Last detected change between this and the previous moment.
    pub change: LastDetectedChange,
}

/// What to do with the change ticks of an item that is being restored.
#[derive(Clone, Copy, Debug)]
pub enum TickUpdate {
    /// Set both the `added` and the `changed` tick to the recorded ones.
    Restore(ComponentTicks),
    /// Set the `added` tick to the recorded one, then mark the item as changed now.
    RestoreAddedMarkChanged(ComponentTicks),
    /// Mark the item as added now (which also counts as changed).
    MarkAdded,
    /// Mark the item as changed now.
    MarkChanged,
    /// Leave the ticks untouched.
    Leave,
}

impl ChangeDetectionState {
    /// Restoring these ticks as they were recorded.
    pub fn restore_update(&self) -> (u: TickUpdate)
        ensures
            u == TickUpdate::Restore(self.ticks),
    {
        TickUpdate::Restore(self.ticks)
    }

    /// Triggering the same change detection as was observed when this state was recorded: an
    /// item that was added is marked as added, one that was changed keeps its `added` tick and is
    /// marked as changed, and one that was unchanged gets its old ticks back.
    pub fn retrigger_update(&self) -> (u: TickUpdate)
        ensures
            u == (match self.change {
                LastDetectedChange::NoChange => TickUpdate::Restore(self.ticks),
                LastDetectedChange::Changed => TickUpdate::RestoreAddedMarkChanged(self.ticks),
                LastDetectedChange::Added => TickUpdate::MarkAdded,
            }),
    {
        match self.change {
            LastDetectedChange::NoChange => TickUpdate::Restore(self.ticks),
            LastDetectedChange::Changed => TickUpdate::RestoreAddedMarkChanged(self.ticks),
            LastDetectedChange::Added => TickUpdate::MarkAdded,
        }
    }
}

/// A single state of `T`, its change detection state, the time it is true to, and whether it
/// should be snapped to.
#[derive(Copy, Debug)]
pub struct Moment<T> {
    /// Time at which this moment has occurred.
    pub time: Duration,
    /// If `true`, and interpolation is run between an earlier point in time and this, this moment
    /// is snapped to instead as per the "Pick B" rule: change into it is instantaneous
    /// ("teleportation") rather than continuous.
    pub snap_to: bool,
    /// Item that was recorded at this moment and its change detection state.
    pub item: Option<(ChangeDetectionState, T)>,
}

/// `true` when `b` is a copy of the recorded item `a`: same presence, same change detection state,
/// and a clone of the same value.
pub open spec fn item_cloned<T: Clone>(
    a: Option<(ChangeDetectionState, T)>,
    b: Option<(ChangeDetectionState, T)>,
) -> bool {
    match (a, b) {
        (None, None) => true,
        (Some(x), Some(y)) => x.0 == y.0 && cloned::<T>(x.1, y.1),
        _ => false,
    }
}

impl<T: Clone> Clone for Moment<T> {
    /// A copy of this moment: same time and snapping, and a clone of its item.
    fn clone(&self) -> (r: Self)
        ensures
            r.time == self.time,
            r.snap_to == self.snap_to,
            item_cloned(self.item, r.item),
    {
        let item = match &self.item {
            Some(pair) => Some((pair.0, pair.1.clone())),
            None => None,
        };
        Moment { time: self.time, snap_to: self.snap_to, item }
    }
}

impl<T> Default for Moment<T> {
    /// A moment at time zero, not snapped to, with no item.
    fn default() -> (m: Self)
        ensures
            m.time@ == 0,
            !m.snap_to,
            m.item is None,
    {
        Moment { time: Duration::zero(), snap_to: false, item: None }
    }
}

/// The item of moment `m`, without its change detection state.
pub open spec fn item_of<T>(m: Moment<T>) -> Option<T> {
    match m.item {
        Some(p) => Some(p.1),
        None => None,
    }
}

/// How to produce an item at some time from two moments: either a copy of a recorded item (or
/// its absence), or a blend of two present items.
#[derive(Debug)]
pub enum InterpolationPlan<'a, T> {
    /// The result is a clone of this item, or absent.
    Take(Option<&'a T>),
    /// The result is `earlier` blended into `later` by the factor `elapsed / span`, negated if
    /// the target time lies before the earlier moment.
    Blend {
        /// The item of the earlier moment.
        earlier: &'a T,
        /// The item of the later moment.
        later: &'a T,
        /// Time between the earlier moment and the target time.
        elapsed: Duration,
        /// `true` when the target time lies before the earlier moment, so that the factor is
        /// negative.
        before_earlier: bool,
        /// Time from the earlier moment to the later one.
        span: Duration,
    },
}

/// `true` when `plan` takes the item of moment `m`, or its absence.
pub open spec fn takes_item_of<T>(plan: InterpolationPlan<'_, T>, m: Moment<T>) -> bool {
    match plan {
        InterpolationPlan::Take(Some(x)) => item_of(m) == Some(*x),
        InterpolationPlan::Take(None) => item_of(m) is None,
        _ => false,
    }
}

/// `true` when `plan` is what interpolating between moments `a` and `b` at `time` calls for:
/// an exact time match takes that moment's item; otherwise, of the two in chronological order,
/// the later one's item is taken if it is snapped to or if either item is absent ("Pick B");
/// otherwise the two items are blended by how far `time` lies from the earlier moment.
pub open spec fn is_plan_between<T>(
    plan: InterpolationPlan<'_, T>,
    a: Moment<T>,
    b: Moment<T>,
    time: Duration,
) -> bool {
    let (first, second) = if a.time@ < b.time@ { (a, b) } else { (b, a) };
    if a.time@ == time@ {
        takes_item_of(plan, a)
    } else if b.time@ == time@ {
        takes_item_of(plan, b)
    } else if second.snap_to || first.item is None || second.item is None {
        takes_item_of(plan, second)
    } else {
        match plan {
            InterpolationPlan::Blend { earlier, later, elapsed, before_earlier, span } => {
                &&& item_of(first) == Some(*earlier)
                &&& item_of(second) == Some(*later)
                &&& before_earlier == (time@ < first.time@)
                &&& elapsed@ == if before_earlier {
                    first.time@ - time@
                } else {
                    time@ - first.time@
                }
                &&& span@ == second.time@ - first.time@
            },
            _ => false,
        }
    }
}

/// The earlier of two moments, as interpolation orders them (the first one only if strictly
/// earlier).
pub open spec fn earlier_of<T>(a: Moment<T>, b: Moment<T>) -> Moment<T> {
    if a.time@ < b.time@ { a } else { b }
}

/// The later of two moments, as interpolation orders them.
pub open spec fn later_of<T>(a: Moment<T>, b: Moment<T>) -> Moment<T> {
    if a.time@ < b.time@ { b } else { a }
}

impl<T> Moment<T> {
    /// A clone of the inner item, if any, without its change detection state.
    pub fn clone_item(&self) -> (r: Option<T>)
        where
            T: Clone,
        ensures
            match (item_of(*self), r) {
                (None, None) => true,
                (Some(a), Some(b)) => cloned::<T>(a, b),
                _ => false,
            },
    {
        match &self.item {
            Some(pair) => Some(pair.1.clone()),
            None => None,
        }
    }

    /// The inner item, if any.
    pub fn item_ref(&self) -> (r: Option<&T>)
        ensures
            match r {
                Some(x) => item_of(*self) == Some(*x),
                None => item_of(*self) is None,
            },
    {
        match &self.item {
            Some(pair) => Some(&pair.1),
            None => None,
        }
    }

    /// The inner item, if any, to modify in place.
    pub fn item_mut(&mut self) -> (r: Option<&mut T>)
        ensures
            final(self).time == old(self).time,
            final(self).snap_to == old(self).snap_to,
            old(self).item is None ==> r is None && final(self).item is None,
            old(self).item matches Some(p) ==> (r matches Some(x) && *x == p.1
                && final(self).item == Some((p.0, *final(x)))),
    {
        match &mut self.item {
            Some(pair) => Some(&mut pair.1),
            None => None,
        }
    }

    /// This moment as a proxy that allows modifying everything except the time.
    pub fn as_proxy(&mut self) -> (p: MomentMutProxy<'_, T>)
        ensures
            *p.time == old(self).time,
            *p.snap_to == old(self).snap_to,
            *p.item == old(self).item,
            final(self).time == old(self).time,
            final(self).snap_to == *final(p.snap_to),
            final(self).item == *final(p.item),
    {
        MomentMutProxy {
            time: &self.time,
            snap_to: &mut self.snap_to,
            item: &mut self.item,
        }
    }

    /// How to produce the item at `time` from this moment and `other`, without checking that
    /// `time` lies between them or that they are at different times. A blend can then have a
    /// factor below 0 (a target before both moments), above 1, or even infinite (two moments at
    /// the same time).
    ///
    /// An exact time match takes that moment's item; otherwise the later moment's item is taken
    /// if it is snapped to or if either item is absent ("Pick B"); otherwise the two are blended.
    pub fn plan_interpolation_against_unchecked<'a>(
        &'a self,
        other: &'a Moment<T>,
        time: Duration,
    ) -> (plan: InterpolationPlan<'a, T>)
        ensures
            is_plan_between(plan, *self, *other, time),
    {
        if self.time.same(&time) {
            return InterpolationPlan::Take(self.item_ref());
        }
        if other.time.same(&time) {
            return InterpolationPlan::Take(other.item_ref());
        }
        let (first, second) = if self.time.lt(&other.time) {
            (self, other)
        } else {
            (other, self)
        };
        if second.snap_to {
            return InterpolationPlan::Take(second.item_ref());
        }
        match (&first.item, &second.item) {
            (Some(f), Some(s)) => {
                let before_earlier = time.lt(&first.time);
                let elapsed = if before_earlier {
                    first.time.saturating_sub(time)
                } else {
                    time.saturating_sub(first.time)
                };
                InterpolationPlan::Blend {
                    earlier: &f.1,
                    later: &s.1,
                    elapsed,
                    before_earlier,
                    span: second.time.saturating_sub(first.time),
                }
            },
            _ => InterpolationPlan::Take(second.item_ref()),
        }
    }

    /// How to produce the item at `time` from this moment and `other`; `time` must lie between
    /// the two, which must be at different times. See
    /// [`Self::plan_interpolation_against_unchecked`].
    pub fn plan_interpolation_against<'a>(
        &'a self,
        other: &'a Moment<T>,
        time: Duration,
    ) -> (plan: InterpolationPlan<'a, T>)
        requires
            earlier_of(*self, *other).time@ <= time@ <= later_of(*self, *other).time@,
            self.time@ != other.time@,
        ensures
            is_plan_between(plan, *self, *other, time),
    {
        self.plan_interpolation_against_unchecked(other, time)
    }
}

/// A mutable proxy for a [`Moment<T>`] that allows editing `snap_to` and `item` but not `time`.
/// It can only be made by [`Moment::as_proxy`].
#[derive(Debug)]
#[non_exhaustive]
pub struct MomentMutProxy<'a, T> {
    /// Time at which this moment has occurred.
    pub time: &'a Duration,
    /// Whether interpolation from an earlier time snaps to this moment ("Pick B").
    pub snap_to: &'a mut bool,
    /// Item that was recorded at this moment and its change detection state.
    pub item: &'a mut Option<(ChangeDetectionState, T)>,
}

impl<T> MomentMutProxy<'_, T> {
    /// A copy of the underlying moment, with a clone of its item.
    pub fn clone_to_moment(&self) -> (m: Moment<T>)
        where
            T: Clone,
        ensures
            m.time == *self.time,
            m.snap_to == *old(self.snap_to),
            item_cloned(*old(self.item), m.item),
    {
        let item = match &*self.item {
            Some(pair) => Some((pair.0, pair.1.clone())),
            None => None,
        };
        Moment { time: *self.time, snap_to: *self.snap_to, item }
    }
}

/// Up to two moments found to interpolate to some time; returned by
/// [`RewindBuffer::find_for_interpolation`].
#[derive(Clone, Copy, Debug)]
pub enum FindForInterpResult<'a, T> {
    /// Only an exact match was found, which is also first in the buffer.
    OnlyExact(&'a Moment<T>),
    /// Exact match was found; the previous one is also provided.
    PreviousAndExact(&'a Moment<T>, &'a Moment<T>),
    /// No exact match was found, but one moment before and one moment after were.
    BeforeAndAfter(&'a Moment<T>, &'a Moment<T>),
}

impl<'a, T> FindForInterpResult<'a, T> {
    /// The exact match, or the moment after.
    pub open spec fn latter(self) -> Moment<T> {
        match self {
            FindForInterpResult::OnlyExact(m) => *m,
            FindForInterpResult::PreviousAndExact(_, m) => *m,
            FindForInterpResult::BeforeAndAfter(_, m) => *m,
        }
    }

    /// The moment before the exact match or before the target time, or the exact match alone.
    pub open spec fn former(self) -> Moment<T> {
        match self {
            FindForInterpResult::OnlyExact(m) => *m,
            FindForInterpResult::PreviousAndExact(p, _) => *p,
            FindForInterpResult::BeforeAndAfter(p, _) => *p,
        }
    }

    /// `true` when `time` lies within the span of the moments of this result, inclusive.
    pub open spec fn spans(self, time: Duration) -> bool {
        earlier_of(self.former(), self.latter()).time@ <= time@ <= later_of(
            self.former(),
            self.latter(),
        ).time@
    }

    /// The exact match if there is one, else the latter moment ("Pick B").
    pub fn pick_b(&self) -> (m: &'a Moment<T>)
        ensures
            *m == self.latter(),
    {
        match self {
            FindForInterpResult::OnlyExact(m) => m,
            FindForInterpResult::PreviousAndExact(_, m) => m,
            FindForInterpResult::BeforeAndAfter(_, m) => m,
        }
    }

    /// How to produce the item at `time` from the moments of this result: an exact match is
    /// taken as is, and otherwise the two moments are interpolated between.
    ///
    /// Errors if `time` lies outside the span of the moments of this result.
    pub fn plan_interpolation(&self, time: Duration) -> (r: Result<
        InterpolationPlan<'a, T>,
        OutOfRecordedRangeError,
    >)
        requires
            self matches FindForInterpResult::BeforeAndAfter(b, a) ==> (a.snap_to || b.time@
                != a.time@),
        ensures
            r is Err <==> !self.spans(time),
            r matches Ok(plan) ==> match *self {
                FindForInterpResult::BeforeAndAfter(b, a) => if a.snap_to {
                    takes_item_of(plan, *a)
                } else {
                    is_plan_between(plan, *b, *a, time)
                },
                _ => takes_item_of(plan, self.latter()),
            },
    {
        let (former, latter) = match self {
            FindForInterpResult::OnlyExact(m) => (*m, *m),
            FindForInterpResult::PreviousAndExact(p, m) => (*p, *m),
            FindForInterpResult::BeforeAndAfter(p, m) => (*p, *m),
        };
        let (lo, hi) = if former.time.lt(&latter.time) {
            (former.time, latter.time)
        } else {
            (latter.time, former.time)
        };
        if time.lt(&lo) || hi.lt(&time) {
            return Err(OutOfRecordedRangeError);
        }
        match self {
            FindForInterpResult::BeforeAndAfter(before, after) => {
                if after.snap_to {
                    Ok(InterpolationPlan::Take(after.item_ref()))
                } else {
                    Ok(before.plan_interpolation_against(after, time))
                }
            },
            _ => Ok(InterpolationPlan::Take(latter.item_ref())),
        }
    }
}

/// `true` when every moment is strictly earlier than every moment after it.
pub open spec fn moments_in_order<T>(s: Seq<Moment<T>>) -> bool {
    forall|i: int, j: int| 0 <= i < j < s.len() ==> s[i].time@ < s[j].time@
}

/// `true` when `time` lies between the first and the last moment of `s`, inclusive.
pub open spec fn covers<T>(s: Seq<Moment<T>>, time: Duration) -> bool {
    s.len() > 0 && s[0].time@ <= time@ <= s.last().time@
}

/// `true` when `k` is the index of the first moment of `s` at or after `time`.
pub open spec fn first_at_or_after<T>(s: Seq<Moment<T>>, time: Duration, k: int) -> bool {
    &&& 0 <= k < s.len()
    &&& s[k].time@ >= time@
    &&& forall|j: int| 0 <= j < k ==> s[j].time@ < time@
}

/// Index of the first moment of `s` at or after `time`, or the length of `s` if there is none.
pub open spec fn first_from<T>(s: Seq<Moment<T>>, time: Duration) -> int
    decreases s.len(),
{
    if s.len() == 0 {
        0
    } else if s[0].time@ >= time@ {
        0
    } else {
        1 + first_from(s.drop_first(), time)
    }
}

proof fn lemma_first_from<T>(s: Seq<Moment<T>>, time: Duration, k: int)
    requires
        0 <= k <= s.len(),
        forall|i: int| 0 <= i < k ==> s[i].time@ < time@,
        k < s.len() ==> s[k].time@ >= time@,
    ensures
        first_from(s, time) == k,
    decreases s.len(),
{
    if s.len() > 0 && k > 0 {
        assert forall|i: int| 0 <= i < k - 1 implies s.drop_first()[i].time@ < time@ by {
            assert(s.drop_first()[i] == s[i + 1]);
        }
        lemma_first_from(s.drop_first(), time, k - 1);
    }
}

/// A buffer that holds a rolling queue of [`Moment<T>`] values, strictly ordered by time, and can
/// be used to rewind and interpolate state within the stored interval.
#[derive(Debug)]
pub struct RewindBuffer<T> {
    moments: VecDeque<Moment<T>>,
}

impl<T> View for RewindBuffer<T> {
    type V = Seq<Moment<T>>;

    closed spec fn view(&self) -> Seq<Moment<T>> {
        self.moments@
    }
}

impl<T> Default for RewindBuffer<T> {
    fn default() -> (b: Self)
        ensures
            b@ == Seq::<Moment<T>>::empty(),
    {
        RewindBuffer { moments: VecDeque::new() }
    }
}

impl<T: Clone> Clone for RewindBuffer<T> {
    /// A buffer holding a copy of every moment, at the same times and in the same order.
    fn clone(&self) -> (r: Self)
        ensures
            r@.len() == self@.len(),
            forall|i: int|
                0 <= i < self@.len() ==> r@[i].time == self@[i].time && r@[i].snap_to
                    == self@[i].snap_to && item_cloned(self@[i].item, r@[i].item),
    {
        proof {
            use_type_invariant(self);
        }
        let moments = self.moments.clone();
        RewindBuffer { moments }
    }
}

impl<'a, T> IntoIterator for &'a RewindBuffer<T> {
    type Item = &'a Moment<T>;

    type IntoIter = Iter<'a, Moment<T>>;

    fn into_iter(self) -> (it: Iter<'a, Moment<T>>)
        ensures
            it.remaining() == self@.as_ref(),
    {
        self.iter()
    }
}

impl<T> RewindBuffer<T> {
    /// Moments are kept strictly ordered by time: no two share a time.
    #[verifier::type_invariant]
    closed spec fn in_order(self) -> bool {
        moments_in_order(self.moments@)
    }

    /// Move all stored moments out, leaving the buffer empty.
    fn take_all(&mut self) -> (moments: VecDeque<Moment<T>>)
        ensures
            moments@ == old(self)@,
            final(self)@ == Seq::<Moment<T>>::empty(),
    {
        let mut moments = VecDeque::new();
        core::mem::swap(&mut moments, &mut self.moments);
        moments
    }

    /// Create a new, empty rewind buffer.
    pub fn new() -> (b: Self)
        ensures
            b@ == Seq::<Moment<T>>::empty(),
    {
        RewindBuffer { moments: VecDeque::new() }
    }

    /// Create an empty rewind buffer with space for at least `capacity` moments.
    pub fn with_capacity(capacity: usize) -> (b: Self)
        ensures
            b@ == Seq::<Moment<T>>::empty(),
    {
        RewindBuffer { moments: VecDeque::with_capacity(capacity) }
    }

    /// The moment at exactly `time`, if there is one.
    pub fn find_moment_exact(&self, time: Duration) -> (r: Option<&Moment<T>>)
        ensures
            r is None <==> forall|i: int| 0 <= i < self@.len() ==> self@[i].time@ != time@,
            r matches Some(m) ==> exists|i: int|
                0 <= i < self@.len() && *m == self@[i] && self@[i].time@ == time@ && forall|j: int|
                    0 <= j < i ==> self@[j].time@ != time@,
    {
        let mut i: usize = 0;
        while i < self.moments.len()
            invariant
                i <= self@.len(),
                forall|j: int| 0 <= j < i ==> self@[j].time@ != time@,
            decreases self@.len() - i,
        {
            if self.moments[i].time.same(&time) {
                return Some(&self.moments[i]);
            }
            i += 1;
        }
        None
    }

    /// The span of time from the first moment to the last, inclusive, or `None` if there are no
    /// moments. With a single moment both ends are its time.
    pub fn represented_range(&self) -> (r: Option<RangeInclusive<Duration>>)
        ensures
            self@.len() == 0 ==> r is None,
            self@.len() > 0 ==> (r matches Some(range) && range@.start == self@[0].time
                && range@.end == self@.last().time && !range@.exhausted),
    {
        let n: usize = self.moments.len();
        if n == 0 {
            None
        } else {
            Some(RangeInclusive::new(self.moments[0].time, self.moments[n - 1].time))
        }
    }

    /// `true` when `time` lies within the span from the first moment to the last, inclusive.
    pub fn time_in_range(&self, time: Duration) -> (r: bool)
        ensures
            r <==> covers(self@, time),
    {
        let n: usize = self.moments.len();
        n > 0 && self.moments[0].time.le(&time) && time.le(&self.moments[n - 1].time)
    }

    /// The first moment contained in this buffer, if any.
    pub fn first_moment(&self) -> (r: Option<&Moment<T>>)
        ensures
            self@.len() == 0 ==> r is None,
            self@.len() > 0 ==> r == Some(&self@[0]),
    {
        if self.moments.len() == 0 {
            None
        } else {
            Some(&self.moments[0])
        }
    }

    /// The last moment contained in this buffer, if any.
    pub fn last_moment(&self) -> (r: Option<&Moment<T>>)
        ensures
            self@.len() == 0 ==> r is None,
            self@.len() > 0 ==> r == Some(&self@.last()),
    {
        let n: usize = self.moments.len();
        if n == 0 {
            None
        } else {
            Some(&self.moments[n - 1])
        }
    }

    /// Find up to two moments to interpolate to `time` with: the first moment at or after `time`,
    /// together with the one before it, if any.
    ///
    /// Errors if `time` lies outside the span represented by this buffer.
    pub fn find_for_interpolation(&self, time: Duration) -> (r: Result<
        FindForInterpResult<'_, T>,
        OutOfRecordedRangeError,
    >)
        ensures
            r is Err <==> !covers(self@, time),
            r matches Ok(found) ==> exists|k: int|
                {
                    &&& #[trigger] first_at_or_after(self@, time, k)
                    &&& found.latter() == self@[k]
                    &&& match found {
                        FindForInterpResult::OnlyExact(_) => k == 0,
                        FindForInterpResult::PreviousAndExact(p, _) => k > 0 && *p == self@[k
                            - 1] && self@[k].time@ == time@,
                        FindForInterpResult::BeforeAndAfter(p, _) => k > 0 && *p == self@[k
                            - 1] && self@[k].time@ > time@,
                    }
                },
    {
        proof {
            use_type_invariant(self);
        }
        let n: usize = self.moments.len();
        if n == 0 || time.lt(&self.moments[0].time) {
            return Err(OutOfRecordedRangeError);
        }
        let mut i: usize = 0;
        while i < n
            invariant
                n == self@.len(),
                n > 0,
                i <= n,
                moments_in_order(self@),
                self@[0].time@ <= time@,
                forall|j: int| 0 <= j < i ==> self@[j].time@ < time@,
            decreases n - i,
        {
            let moment = &self.moments[i];
            if time.le(&moment.time) {
                proof {
                    assert(first_at_or_after(self@, time, i as int));
                }
                if i == 0 {
                    return Ok(FindForInterpResult::OnlyExact(moment));
                }
                let before = &self.moments[i - 1];
                if moment.time.same(&time) {
                    return Ok(FindForInterpResult::PreviousAndExact(before, moment));
                }
                return Ok(FindForInterpResult::BeforeAndAfter(before, moment));
            }
            i += 1;
        }
        Err(OutOfRecordedRangeError)
    }

    /// How to produce the item at `time` from the stored moments: the first moment at or after
    /// `time` is taken if it is at exactly `time` (or is the first moment), and otherwise it is
    /// interpolated with the moment before it.
    ///
    /// Errors if `time` lies outside the span represented by this buffer.
    pub fn plan_interpolation(&self, time: Duration) -> (r: Result<
        InterpolationPlan<'_, T>,
        OutOfRecordedRangeError,
    >)
        ensures
            r is Err <==> !covers(self@, time),
            r matches Ok(plan) ==> exists|k: int|
                {
                    &&& #[trigger] first_at_or_after(self@, time, k)
                    &&& if k == 0 || self@[k].time@ == time@ {
                        takes_item_of(plan, self@[k])
                    } else {
                        is_plan_between(plan, self@[k - 1], self@[k], time)
                    }
                },
    {
        proof {
            use_type_invariant(self);
        }
        let found = self.find_for_interpolation(time)?;
        found.plan_interpolation(time)
    }

    /// The best moment for `time` by "Pick B": the first moment at or after `time`.
    ///
    /// Errors if `time` lies outside the span represented by this buffer.
    pub fn rewind_to(&self, time: Duration) -> (r: Result<&Moment<T>, OutOfRecordedRangeError>)
        ensures
            r is Err <==> !covers(self@, time),
            r matches Ok(m) ==> exists|k: int| #[trigger]
                first_at_or_after(self@, time, k) && *m == self@[k],
    {
        let found = self.find_for_interpolation(time)?;
        Ok(found.pick_b())
    }

    /// Insert a new moment at the end; it must be strictly later than the currently last one.
    ///
    /// This does not delete any moments, which might allow for accidental infinite growth; thus
    /// [`Self::rotate`] is the better choice whenever applicable.
    pub fn push(&mut self, new: Moment<T>)
        requires
            old(self)@.len() > 0 ==> old(self)@.last().time@ < new.time@,
        ensures
            final(self)@ == old(self)@.push(new),
    {
        proof {
            use_type_invariant(&*self);
        }
        let mut moments = self.take_all();
        moments.push_back(new);
        self.moments = moments;
    }

    /// Delete all moments older than `delete_before`.
    pub fn delete_before(&mut self, delete_before: Duration)
        ensures
            final(self)@ == old(self)@.skip(first_from(old(self)@, delete_before)),
            final(self)@.len() <= old(self)@.len(),
            final(self)@ == old(self)@.skip(old(self)@.len() - final(self)@.len()),
            forall|i: int|
                0 <= i < old(self)@.len() - final(self)@.len() ==> old(self)@[i].time@
                    < delete_before@,
            forall|i: int| 0 <= i < final(self)@.len() ==> final(self)@[i].time@ >= delete_before@,
    {
        proof {
            use_type_invariant(&*self);
        }
        let ghost start = self@;
        let mut moments = self.take_all();
        while moments.len() > 0 && moments[0].time.lt(&delete_before)
            invariant
                moments_in_order(start),
                moments@.len() <= start.len(),
                moments@ == start.skip(start.len() - moments@.len()),
                forall|i: int|
                    0 <= i < start.len() - moments@.len() ==> start[i].time@ < delete_before@,
            decreases moments@.len(),
        {
            moments.pop_front();
        }
        proof {
            lemma_first_from(start, delete_before, start.len() - moments@.len());
        }
        self.moments = moments;
    }

    /// Delete all moments newer than `delete_after`.
    pub fn delete_after(&mut self, delete_after: Duration)
        ensures
            final(self)@.len() <= old(self)@.len(),
            final(self)@ == old(self)@.take(final(self)@.len() as int),
            forall|i: int|
                final(self)@.len() <= i < old(self)@.len() ==> old(self)@[i].time@ > delete_after@,
            forall|i: int| 0 <= i < final(self)@.len() ==> final(self)@[i].time@ <= delete_after@,
    {
        proof {
            use_type_invariant(&*self);
        }
        let ghost start = self@;
        let mut moments = self.take_all();
        while moments.len() > 0 && delete_after.lt(&moments[moments.len() - 1].time)
            invariant
                moments_in_order(start),
                moments@.len() <= start.len(),
                moments@ == start.take(moments@.len() as int),
                forall|i: int| moments@.len() <= i < start.len() ==> start[i].time@ > delete_after@,
            decreases moments@.len(),
        {
            moments.pop_back();
        }
        self.moments = moments;
    }

    /// Delete all moments older than `delete_older_than` and then insert `moment` at the end. This
    /// is the recommended way to add moments, as it keeps the buffer from growing without bound.
    /// The new moment must be strictly later than every moment that is kept.
    pub fn rotate(&mut self, delete_older_than: Duration, moment: Moment<T>)
        requires
            forall|i: int|
                0 <= i < old(self)@.len() && old(self)@[i].time@ >= delete_older_than@
                    ==> old(self)@[i].time@ < moment.time@,
        ensures
            final(self)@ == old(self)@.skip(first_from(old(self)@, delete_older_than)).push(moment),
            1 <= final(self)@.len() <= old(self)@.len() + 1,
            final(self)@.last() == moment,
            final(self)@.drop_last() == old(self)@.skip(old(self)@.len() - (final(self)@.len() - 1)),
            forall|i: int|
                0 <= i < old(self)@.len() - (final(self)@.len() - 1) ==> old(self)@[i].time@
                    < delete_older_than@,
            forall|i: int|
                0 <= i < final(self)@.len() - 1 ==> final(self)@[i].time@ >= delete_older_than@,
    {
        self.delete_before(delete_older_than);
        self.push(moment);
    }

    /// Overwrite the item of the last `n` moments (or of all moments, if there are fewer) with
    /// `item`, cloning its value. Times and snapping are left as they are.
    pub fn enforce_for_n_last(&mut self, n: usize, item: Option<(ChangeDetectionState, &T)>)
        where
            T: Clone,
        ensures
            final(self)@.len() == old(self)@.len(),
            forall|i: int|
                0 <= i < old(self)@.len() ==> (#[trigger] final(self)@[i]).time == old(self)@[i].time
                    && final(self)@[i].snap_to == old(self)@[i].snap_to,
            forall|i: int|
                0 <= i < old(self)@.len() - n ==> (#[trigger] final(self)@[i]).item == old(
                    self,
                )@[i].item,
            forall|i: int|
                0 <= i < old(self)@.len() && i >= old(self)@.len() - n ==> match (
                    item,
                    (#[trigger] final(self)@[i]).item,
                ) {
                    (None, None) => true,
                    (Some(x), Some(y)) => y.0 == x.0 && cloned::<T>(*x.1, y.1),
                    _ => false,
                },
    {
        proof {
            use_type_invariant(&*self);
        }
        let mut moments = self.take_all();
        let ghost start = moments@;
        let len: usize = moments.len();
        let keep: usize = if n < len {
            len - n
        } else {
            0
        };
        let mut rest = moments.split_off(keep);
        while rest.len() > 0
            invariant
                moments_in_order(start),
                len == start.len(),
                keep <= len,
                keep >= len - n,
                moments@.len() + rest@.len() == len,
                moments@.len() >= keep,
                rest@ == start.skip(moments@.len() as int),
                forall|i: int|
                    0 <= i < moments@.len() ==> (#[trigger] moments@[i]).time == start[i].time
                        && moments@[i].snap_to == start[i].snap_to,
                forall|i: int| 0 <= i < keep ==> (#[trigger] moments@[i]).item == start[i].item,
                forall|i: int|
                    keep <= i < moments@.len() ==> match (item, (#[trigger] moments@[i]).item) {
                        (None, None) => true,
                        (Some(x), Some(y)) => y.0 == x.0 && cloned::<T>(*x.1, y.1),
                        _ => false,
                    },
            decreases rest@.len(),
        {
            let m = rest.pop_front().unwrap();
            let new_item = match item {
                Some(pair) => Some((pair.0, pair.1.clone())),
                None => None,
            };
            moments.push_back(Moment { time: m.time, snap_to: m.snap_to, item: new_item });
        }
        self.moments = moments;
    }

    /// Replace everything of the moment at `index` except its time: its snapping and its item.
    /// The previous snapping and item are returned. This edits stored moments in place, as
    /// [`Moment::as_proxy`] does for a single moment, without letting their times change.
    pub fn replace_state_at(
        &mut self,
        index: usize,
        snap_to: bool,
        item: Option<(ChangeDetectionState, T)>,
    ) -> (previous: (bool, Option<(ChangeDetectionState, T)>))
        requires
            index < old(self)@.len(),
        ensures
            final(self)@ == old(self)@.update(
                index as int,
                Moment { time: old(self)@[index as int].time, snap_to, item },
            ),
            previous == (old(self)@[index as int].snap_to, old(self)@[index as int].item),
    {
        proof {
            use_type_invariant(&*self);
        }
        let mut moments = self.take_all();
        let ghost start = moments@;
        let old_moment = moments.remove(index).unwrap();
        moments.insert(index, Moment { time: old_moment.time, snap_to, item });
        proof {
            assert(moments@ =~= start.update(
                index as int,
                Moment { time: start[index as int].time, snap_to, item },
            ));
        }
        self.moments = moments;
        (old_moment.snap_to, old_moment.item)
    }

    /// Delete all moments stored in this buffer.
    pub fn clear(&mut self)
        ensures
            final(self)@ == Seq::<Moment<T>>::empty(),
    {
        self.moments = VecDeque::new();
    }

    /// `true` if the buffer holds no moments at all.
    pub fn is_empty(&self) -> (r: bool)
        ensures
            r <==> self@.len() == 0,
    {
        self.moments.len() == 0
    }

    /// `true` if at least one moment holds an item.
    pub fn has_present_items(&self) -> (r: bool)
        ensures
            r <==> exists|i: int| 0 <= i < self@.len() && (#[trigger] self@[i]).item is Some,
    {
        let mut i: usize = 0;
        while i < self.moments.len()
            invariant
                i <= self@.len(),
                forall|j: int| 0 <= j < i ==> (#[trigger] self@[j]).item is None,
            decreases self@.len() - i,
        {
            if self.moments[i].item.is_some() {
                return true;
            }
            i += 1;
        }
        false
    }

    /// An iterator over all stored moments, oldest first.
    pub fn iter(&self) -> (it: Iter<'_, Moment<T>>)
        ensures
            it.remaining() == self@.as_ref(),
    {
        broadcast use vstd::std_specs::vecdeque::group_vec_dequeue_axioms;

        self.moments.iter()
    }

    /// The amount of moments stored inside this buffer.
    pub fn len(&self) -> (n: usize)
        ensures
            n == self@.len(),
    {
        self.moments.len()
    }

    /// The stored moments, oldest first.
    pub fn inner(&self) -> (r: &VecDeque<Moment<T>>)
        ensures
            r@ == self@,
            moments_in_order(self@),
    {
        proof {
            use_type_invariant(self);
        }
        &self.moments
    }
}

/// The time of a recorded moment is covered by the buffer, and that moment is the first one at
/// or after its own time: rewinding there returns it, and interpolating there takes its item.
pub proof fn lemma_recorded_time_found<T>(s: Seq<Moment<T>>, i: int)
    requires
        moments_in_order(s),
        0 <= i < s.len(),
    ensures
        covers(s, s[i].time),
        forall|k: int| #[trigger] first_at_or_after(s, s[i].time, k) <==> k == i,
        forall|plan: InterpolationPlan<'_, T>|
            (exists|k: int|
                {
                    &&& #[trigger] first_at_or_after(s, s[i].time, k)
                    &&& if k == 0 || s[k].time@ == s[i].time@ {
                        takes_item_of(plan, s[k])
                    } else {
                        is_plan_between(plan, s[k - 1], s[k], s[i].time)
                    }
                }) ==> takes_item_of(plan, s[i]),
{
}

/// Interpolating between two moments at different times does not depend on their order.
pub proof fn lemma_plan_symmetric<T>(
    plan: InterpolationPlan<'_, T>,
    a: Moment<T>,
    b: Moment<T>,
    time: Duration,
)
    requires
        a.time@ != b.time@,
    ensures
        is_plan_between(plan, a, b, time) <==> is_plan_between(plan, b, a, time),
{
}

/// Interpolating between two moments at a time calls for one plan only: any two plans that both
/// fit are the same. So the checked and unchecked planning of [`Moment`] agree wherever the
/// checked one may be called.
pub proof fn lemma_plan_unique<T>(
    p1: InterpolationPlan<'_, T>,
    p2: InterpolationPlan<'_, T>,
    a: Moment<T>,
    b: Moment<T>,
    time: Duration,
)
    requires
        is_plan_between(p1, a, b, time),
        is_plan_between(p2, a, b, time),
    ensures
        p1 == p2,
{
    match (p1, p2) {
        (
            InterpolationPlan::Blend { elapsed: e1, span: s1, .. },
            InterpolationPlan::Blend { elapsed: e2, span: s2, .. },
        ) => {
            Duration::lemma_view_injective(e1, e2);
            Duration::lemma_view_injective(s1, s2);
        },
        _ => {},
    }
}

/// Between two moments at different times that both hold an item, at a time that is neither of
/// theirs, the item is blended when the later moment is not snapped to (whatever the earlier
/// one's `snap_to`): the earlier moment's item into the later one's, by the time from the
/// earlier moment to the target over the time from the earlier moment to the later one, with
/// the factor negative when the target lies before the earlier moment. So within the span the
/// factor grows from 0 at the earlier moment towards 1 at the later one.
pub proof fn lemma_blend_between_present_items<T>(
    plan: InterpolationPlan<'_, T>,
    a: Moment<T>,
    b: Moment<T>,
    time: Duration,
)
    requires
        is_plan_between(plan, a, b, time),
        a.time@ != b.time@,
        time@ != a.time@,
        time@ != b.time@,
        a.item is Some,
        b.item is Some,
        a.time@ < b.time@ ==> !b.snap_to,
        b.time@ < a.time@ ==> !a.snap_to,
    ensures
        plan is Blend,
        a.time@ < b.time@ ==> (plan matches InterpolationPlan::Blend {
            earlier,
            later,
            elapsed,
            before_earlier,
            span,
        } && (a.item matches Some(x) && *earlier == x.1) && (b.item matches Some(y) && *later == y.1) && span@ + a.time@ == b.time@
            && before_earlier == (time@ < a.time@) && (if time@ < a.time@ {
            elapsed@ + time@ == a.time@
        } else {
            elapsed@ + a.time@ == time@
        })),
        b.time@ < a.time@ ==> (plan matches InterpolationPlan::Blend {
            earlier,
            later,
            elapsed,
            before_earlier,
            span,
        } && (b.item matches Some(x) && *earlier == x.1) && (a.item matches Some(y) && *later == y.1) && span@ + b.time@ == a.time@
            && before_earlier == (time@ < b.time@) && (if time@ < b.time@ {
            elapsed@ + time@ == b.time@
        } else {
            elapsed@ + b.time@ == time@
        })),
{
}

/// Whenever the later of two moments is snapped to, and the target time is not the earlier
/// moment's own, its item (or its absence) is taken, with no blending ("Pick B").
pub proof fn lemma_snap_takes_later<T>(
    plan: InterpolationPlan<'_, T>,
    a: Moment<T>,
    b: Moment<T>,
    time: Duration,
)
    requires
        is_plan_between(plan, a, b, time),
        a.time@ < b.time@,
        b.snap_to,
        time@ != a.time@,
    ensures
        plan matches InterpolationPlan::Take(x) && match (x, b.item) {
            (Some(v), Some(p)) => *v == p.1,
            (None, None) => true,
            _ => false,
        },
{
}

/// A blend between two moments, at a time between them, blends by a factor strictly between 0
/// and 1: the elapsed time is positive and shorter than the span.
pub proof fn lemma_blend_factor_within<T>(
    plan: InterpolationPlan<'_, T>,
    a: Moment<T>,
    b: Moment<T>,
    time: Duration,
)
    requires
        is_plan_between(plan, a, b, time),
        plan is Blend,
        earlier_of(a, b).time@ <= time@ <= later_of(a, b).time@,
    ensures
        !plan->before_earlier,
        0 < plan->elapsed@ < plan->span@,
{
}

/// "Pick B": between two moments at other times than the target, if either item is absent or
/// the later moment is snapped to, the later moment's item (or its absence) is taken.
pub proof fn lemma_pick_b<T>(
    plan: InterpolationPlan<'_, T>,
    a: Moment<T>,
    b: Moment<T>,
    time: Duration,
)
    requires
        is_plan_between(plan, a, b, time),
        a.time@ != time@,
        b.time@ != time@,
        a.item is None || b.item is None || later_of(a, b).snap_to,
    ensures
        takes_item_of(plan, later_of(a, b)),
{
}

} // verus!
