//! A rolling, time-ordered queue of messages that can be replayed forward or backward.

use std::collections::vec_deque::Iter;
use std::collections::VecDeque;
use core::ops::{Deref, DerefMut, RangeInclusive};

use vstd::prelude::*;
use vstd::std_specs::iter::IteratorSpec;

use crate::duration::Duration;

verus! {

/// A reversed message.
///
/// If there are messages stored in a timeline and time is rewound backward, messages that were
/// rewound through are sent out in this wrapper instead.
#[derive(Clone, Copy, Debug, Default, PartialEq, Eq)]
pub struct Reverse<M>(pub M);

impl<M> AsRef<M> for Reverse<M> {
    fn as_ref(&self) -> (r: &M)
        ensures
            *r == self.0,
    {
        &self.0
    }
}

impl<M> AsMut<M> for Reverse<M> {
    fn as_mut(&mut self) -> (r: &mut M)
        ensures
            *r == old(self).0,
            final(self).0 == *final(r),
    {
        &mut self.0
    }
}

impl<M> Deref for Reverse<M> {
    type Target = M;

    fn deref(&self) -> (r: &M)
        ensures
            *r == self.0,
    {
        &self.0
    }
}

impl<M> DerefMut for Reverse<M> {
    fn deref_mut(&mut self) -> (r: &mut M)
        ensures
            *r == old(self).0,
            final(self).0 == *final(r),
    {
        &mut self.0
    }
}

/// A single message `M` with the time at which it was sent.
#[derive(Copy, Debug, Default)]
pub struct TimedMessage<M> {
    /// Time at which this message was sent.
    pub time: Duration,
    /// The message in question.
    pub message: M,
}

impl<M> AsRef<M> for TimedMessage<M> {
    fn as_ref(&self) -> (r: &M)
        ensures
            *r == self.message,
    {
        &self.message
    }
}

impl<M> AsMut<M> for TimedMessage<M> {
    fn as_mut(&mut self) -> (r: &mut M)
        ensures
            *r == old(self).message,
            final(self).message == *final(r),
            final(self).time == old(self).time,
    {
        &mut self.message
    }
}

impl<M> Deref for TimedMessage<M> {
    type Target = M;

    fn deref(&self) -> (r: &M)
        ensures
            *r == self.message,
    {
        &self.message
    }
}

impl<M> DerefMut for TimedMessage<M> {
    fn deref_mut(&mut self) -> (r: &mut M)
        ensures
            *r == old(self).message,
            final(self).message == *final(r),
            final(self).time == old(self).time,
    {
        &mut self.message
    }
}

impl<'a, M> IntoIterator for &'a TimedMessagesBuffer<M> {
    type Item = &'a TimedMessage<M>;

    type IntoIter = Iter<'a, TimedMessage<M>>;

    fn into_iter(self) -> (it: Iter<'a, TimedMessage<M>>)
        ensures
            it.remaining() == self@.as_ref(),
    {
        self.iter()
    }
}

impl<M: Clone> Clone for TimedMessage<M> {
    /// A copy of this message sent at the same time.
    fn clone(&self) -> (r: Self)
        ensures
            r.time == self.time,
            cloned::<M>(self.message, r.message),
    {
        TimedMessage { time: self.time, message: self.message.clone() }
    }
}

/// `true` when every message is sent no later than every message after it.
pub open spec fn messages_in_order<M>(s: Seq<TimedMessage<M>>) -> bool {
    forall|i: int, j: int| 0 <= i <= j < s.len() ==> s[i].time@ <= s[j].time@
}

/// The messages `msgs`, each stamped with `time`, in the same order.
pub open spec fn stamped<M>(msgs: Seq<M>, time: Duration) -> Seq<TimedMessage<M>> {
    msgs.map_values(|m: M| TimedMessage { time, message: m })
}

/// Index of the first message in `s` sent strictly after `time`, or the length of `s` if
/// there is none.
pub open spec fn first_sent_after<M>(s: Seq<TimedMessage<M>>, time: Duration) -> int
    decreases s.len(),
{
    if s.len() == 0 {
        0
    } else if s[0].time@ > time@ {
        0
    } else {
        1 + first_sent_after(s.drop_first(), time)
    }
}

/// `s` with `msgs`, stamped with `time`, inserted before the first message sent after `time`.
pub open spec fn inserted_in_order<M>(
    s: Seq<TimedMessage<M>>,
    time: Duration,
    msgs: Seq<M>,
) -> Seq<TimedMessage<M>> {
    let k: int = first_sent_after(s, time);
    s.take(k) + stamped(msgs, time) + s.skip(k)
}

/// Predicate: the message was sent exactly at `time`.
pub open spec fn sent_at<M>(time: Duration) -> spec_fn(TimedMessage<M>) -> bool {
    |m: TimedMessage<M>| m.time == time
}

/// Predicate: the message lies between `from` and `to` (in either order), inclusive of `to`
/// and exclusive of `from`.
pub open spec fn passed_rewinding<M>(from: Duration, to: Duration) -> spec_fn(TimedMessage<M>) -> bool {
    |m: TimedMessage<M>|
        {
            let lo: nat = if from@ > to@ { to@ } else { from@ };
            let hi: nat = if from@ > to@ { from@ } else { to@ };
            &&& lo <= m.time@ <= hi
            &&& m.time@ != from@
        }
}

/// Predicate: the message lies outside the inclusive span from `start` to `end`.
pub open spec fn outside_span<M>(start: Duration, end: Duration) -> spec_fn(TimedMessage<M>) -> bool {
    |m: TimedMessage<M>| m.time@ < start@ || m.time@ > end@
}

/// Index of the first message in `s` sent no earlier than `time`, or the length of `s` if there
/// is none.
pub open spec fn first_sent_from<M>(s: Seq<TimedMessage<M>>, time: Duration) -> int
    decreases s.len(),
{
    if s.len() == 0 {
        0
    } else if s[0].time@ >= time@ {
        0
    } else {
        1 + first_sent_from(s.drop_first(), time)
    }
}

proof fn lemma_first_sent_from<M>(s: Seq<TimedMessage<M>>, time: Duration, k: int)
    requires
        0 <= k <= s.len(),
        forall|i: int| 0 <= i < k ==> s[i].time@ < time@,
        k < s.len() ==> s[k].time@ >= time@,
    ensures
        first_sent_from(s, time) == k,
    decreases s.len(),
{
    if s.len() > 0 && k > 0 {
        assert forall|i: int| 0 <= i < k - 1 implies s.drop_first()[i].time@ < time@ by {
            assert(s.drop_first()[i] == s[i + 1]);
        }
        lemma_first_sent_from(s.drop_first(), time, k - 1);
    }
}

proof fn lemma_take_one_more<A>(s: Seq<A>, k: int)
    requires
        0 <= k < s.len(),
    ensures
        s.take(k + 1) == s.take(k).push(s[k]),
        s.skip(k)[0] == s[k],
{
    assert(s.take(k + 1) =~= s.take(k).push(s[k]));
}

/// Filtering messages keeps them in the order in which they were sent.
proof fn lemma_filter_keeps_order<M>(s: Seq<TimedMessage<M>>, pred: spec_fn(TimedMessage<M>) -> bool)
    requires
        messages_in_order(s),
    ensures
        messages_in_order(s.filter(pred)),
    decreases s.len(),
{
    reveal(Seq::filter);
    if s.len() > 0 {
        let rest = s.drop_last();
        assert(messages_in_order(rest));
        lemma_filter_keeps_order(rest, pred);
        let f = rest.filter(pred);
        if pred(s.last()) {
            assert forall|i: int| 0 <= i < f.len() implies f[i].time@ <= s.last().time@ by {
                lemma_filtered_from(rest, pred, i);
            }
        }
    }
}

/// Every filtered message is one of the messages filtered.
proof fn lemma_filtered_from<A>(s: Seq<A>, pred: spec_fn(A) -> bool, i: int)
    requires
        0 <= i < s.filter(pred).len(),
    ensures
        exists|j: int| 0 <= j < s.len() && s[j] == s.filter(pred)[i],
    decreases s.len(),
{
    reveal(Seq::filter);
    if s.len() > 0 {
        let rest = s.drop_last();
        if i < rest.filter(pred).len() {
            lemma_filtered_from(rest, pred, i);
            let j = choose|j: int| 0 <= j < rest.len() && rest[j] == rest.filter(pred)[i];
            assert(s[j] == s.filter(pred)[i]);
        } else {
            assert(s[s.len() - 1] == s.filter(pred)[i]);
        }
    }
}

proof fn lemma_first_sent_after<M>(s: Seq<TimedMessage<M>>, time: Duration, k: int)
    requires
        0 <= k <= s.len(),
        forall|i: int| 0 <= i < k ==> s[i].time@ <= time@,
        k < s.len() ==> s[k].time@ > time@,
    ensures
        first_sent_after(s, time) == k,
    decreases s.len(),
{
    if s.len() > 0 && k > 0 {
        lemma_first_sent_after(s.drop_first(), time, k - 1);
    }
}

/// A buffer that holds a rolling queue of [`TimedMessage<M>`] values and can be used to rewind or
/// replay messages within the stored interval.
#[derive(Debug)]
pub struct TimedMessagesBuffer<M> {
    messages: VecDeque<TimedMessage<M>>,
}

impl<M: Clone> Clone for TimedMessagesBuffer<M> {
    /// A buffer holding a copy of every message, at the same times and in the same order.
    fn clone(&self) -> (r: Self)
        ensures
            r@.len() == self@.len(),
            forall|i: int|
                0 <= i < self@.len() ==> r@[i].time == self@[i].time && cloned::<M>(
                    self@[i].message,
                    r@[i].message,
                ),
    {
        proof {
            use_type_invariant(self);
        }
        let messages = self.messages.clone();
        TimedMessagesBuffer { messages }
    }
}

impl<M> View for TimedMessagesBuffer<M> {
    type V = Seq<TimedMessage<M>>;

    closed spec fn view(&self) -> Seq<TimedMessage<M>> {
        self.messages@
    }
}

impl<M> Default for TimedMessagesBuffer<M> {
    fn default() -> (b: Self)
        ensures
            b@ == Seq::<TimedMessage<M>>::empty(),
    {
        TimedMessagesBuffer { messages: VecDeque::new() }
    }
}

impl<M> TimedMessagesBuffer<M> {
    /// Stored messages are always in the order in which they were sent.
    #[verifier::type_invariant]
    closed spec fn in_order(self) -> bool {
        messages_in_order(self.messages@)
    }

    /// Move all stored messages out, leaving the buffer empty.
    fn take_all(&mut self) -> (messages: VecDeque<TimedMessage<M>>)
        ensures
            messages@ == old(self)@,
            final(self)@ == Seq::<TimedMessage<M>>::empty(),
    {
        let mut messages = VecDeque::new();
        core::mem::swap(&mut messages, &mut self.messages);
        messages
    }

    /// Create a new, empty buffer for timed messages.
    pub fn new() -> (b: Self)
        ensures
            b@ == Seq::<TimedMessage<M>>::empty(),
    {
        TimedMessagesBuffer { messages: VecDeque::new() }
    }

    /// Create an empty buffer with space for at least `capacity` timed messages.
    pub fn with_capacity(capacity: usize) -> (b: Self)
        ensures
            b@ == Seq::<TimedMessage<M>>::empty(),
    {
        TimedMessagesBuffer { messages: VecDeque::with_capacity(capacity) }
    }

    /// The first message contained in this buffer, if any.
    pub fn first_message(&self) -> (r: Option<&TimedMessage<M>>)
        ensures
            self@.len() == 0 ==> r is None,
            self@.len() > 0 ==> r == Some(&self@[0]),
    {
        if self.messages.len() == 0 {
            None
        } else {
            Some(&self.messages[0])
        }
    }

    /// The last message contained in this buffer, if any.
    pub fn last_message(&self) -> (r: Option<&TimedMessage<M>>)
        ensures
            self@.len() == 0 ==> r is None,
            self@.len() > 0 ==> r == Some(&self@.last()),
    {
        let n: usize = self.messages.len();
        if n == 0 {
            None
        } else {
            Some(&self.messages[n - 1])
        }
    }

    /// The amount of messages stored inside this buffer.
    pub fn len(&self) -> (n: usize)
        ensures
            n == self@.len(),
    {
        self.messages.len()
    }

    /// `true` if the buffer holds no messages at all.
    pub fn is_empty(&self) -> (r: bool)
        ensures
            r <==> self@.len() == 0,
    {
        self.messages.len() == 0
    }

    /// Messages sent at exactly `time`, in the order in which they were sent.
    pub fn find_messages_exact(&self, time: Duration) -> (found: Vec<&TimedMessage<M>>)
        ensures
            found@.unref() == self@.filter(sent_at(time)),
    {
        let mut found: Vec<&TimedMessage<M>> = Vec::new();
        let mut i: usize = 0;
        while i < self.messages.len()
            invariant
                i <= self@.len(),
                found@.unref() == self@.take(i as int).filter(sent_at(time)),
            decreases self@.len() - i,
        {
            let m = &self.messages[i];
            proof {
                assert(self@.take(i + 1) == self@.take(i as int).push(self@[i as int]));
                self@.take(i as int).lemma_filter_push(self@[i as int], sent_at(time));
            }
            if m.time == time {
                found.push(m);
            }
            i += 1;
        }
        assert(self@.take(self@.len() as int) == self@);
        found
    }

    /// The span of time from the first message to the last, inclusive, or `None` if there are no
    /// messages. With a single message both ends are its time.
    ///
    /// A wider span may have been recorded into this buffer: where no messages were sent at its
    /// beginning or end, that part is not represented, and the span is trimmed to the first and
    /// last message.
    pub fn represented_range(&self) -> (r: Option<RangeInclusive<Duration>>)
        ensures
            self@.len() == 0 ==> r is None,
            self@.len() > 0 ==> (r matches Some(range) && range@.start == self@[0].time
                && range@.end == self@.last().time && !range@.exhausted),
    {
        let n: usize = self.messages.len();
        if n == 0 {
            None
        } else {
            Some(RangeInclusive::new(self.messages[0].time, self.messages[n - 1].time))
        }
    }

    /// `true` when `time` lies within the span from the first message to the last, inclusive.
    pub fn time_in_range(&self, time: Duration) -> (r: bool)
        ensures
            r <==> self@.len() > 0 && self@[0].time@ <= time@ <= self@.last().time@,
    {
        let n: usize = self.messages.len();
        n > 0 && self.messages[0].time.le(&time) && time.le(&self.messages[n - 1].time)
    }

    /// An iterator over all stored messages, oldest first.
    pub fn iter(&self) -> (it: Iter<'_, TimedMessage<M>>)
        ensures
            it.remaining() == self@.as_ref(),
    {
        broadcast use vstd::std_specs::vecdeque::group_vec_dequeue_axioms;

        self.messages.iter()
    }

    /// The stored messages, oldest first.
    pub fn inner(&self) -> (r: &VecDeque<TimedMessage<M>>)
        ensures
            r@ == self@,
            messages_in_order(self@),
    {
        proof {
            use_type_invariant(self);
        }
        &self.messages
    }

    /// Messages that have to be sent when rewinding from `from` to `to`, in the order of this
    /// buffer rather than of the rewinding: if `from` is later than `to`, use them in reverse.
    ///
    /// Every message between the two times is returned, inclusive of `to` but exclusive of `from`,
    /// so that rewinding from 5s to 10s and then from 10s to 15s yields no message twice. Messages
    /// at exactly `from` come from [`Self::find_messages_exact`].
    pub fn rewind_from_to_nonchronological(&self, from: Duration, to: Duration) -> (found: Vec<
        &TimedMessage<M>,
    >)
        ensures
            found@.unref() == self@.filter(passed_rewinding(from, to)),
    {
        let (lo, hi) = if to.lt(&from) {
            (to, from)
        } else {
            (from, to)
        };
        let mut found: Vec<&TimedMessage<M>> = Vec::new();
        let mut i: usize = 0;
        while i < self.messages.len()
            invariant
                i <= self@.len(),
                lo@ == (if from@ > to@ { to@ } else { from@ }),
                hi@ == (if from@ > to@ { from@ } else { to@ }),
                found@.unref() == self@.take(i as int).filter(passed_rewinding(from, to)),
            decreases self@.len() - i,
        {
            let m = &self.messages[i];
            proof {
                assert(self@.take(i + 1) == self@.take(i as int).push(self@[i as int]));
                self@.take(i as int).lemma_filter_push(self@[i as int], passed_rewinding(from, to));
            }
            if lo.le(&m.time) && m.time.le(&hi) && !m.time.same(&from) {
                found.push(m);
            }
            i += 1;
        }
        assert(self@.take(self@.len() as int) == self@);
        found
    }

    /// Insert `messages`, all sent at `time`, after every stored message sent no later than
    /// `time`, keeping their own order.
    pub fn insert_many_in_order(&mut self, time: Duration, messages: Vec<M>)
        ensures
            final(self)@ == inserted_in_order(old(self)@, time, messages@),
    {
        proof {
            use_type_invariant(&*self);
        }
        let mut stored = self.take_all();
        let ghost start = stored@;
        let mut k: usize = 0;
        while k < stored.len() && stored[k].time.le(&time)
            invariant
                k <= stored@.len(),
                stored@ == start,
                forall|i: int| 0 <= i < k ==> start[i].time@ <= time@,
            decreases stored@.len() - k,
        {
            k += 1;
        }
        proof {
            lemma_first_sent_after(start, time, k as int);
        }
        let mut rest = messages;
        let mut added: VecDeque<TimedMessage<M>> = VecDeque::new();
        while rest.len() > 0
            invariant
                rest@.len() <= messages@.len(),
                rest@ == messages@.take(rest@.len() as int),
                added@ == stamped(messages@.skip(rest@.len() as int), time),
            decreases rest@.len(),
        {
            let m = rest.pop().unwrap();
            added.push_front(TimedMessage { time, message: m });
        }
        let mut tail = stored.split_off(k);
        stored.append(&mut added);
        stored.append(&mut tail);
        self.messages = stored;
    }

    /// Insert a single message after every stored message sent no later than it. For many
    /// messages at once, [`Self::insert_many_in_order`] is better.
    pub fn insert_in_order(&mut self, message: TimedMessage<M>)
        ensures
            final(self)@ == inserted_in_order(old(self)@, message.time, seq![message.message]),
    {
        let mut single: Vec<M> = Vec::new();
        single.push(message.message);
        self.insert_many_in_order(message.time, single);
    }

    /// Replace everything sent within `range` (inclusive) with `with`: stored messages within the
    /// range are deleted, then the new ones are inserted at the start of the range.
    #[verifier::spinoff_prover]
    pub fn overwrite_range(&mut self, range: &RangeInclusive<Duration>, with: Vec<M>)
        ensures
            final(self)@ == inserted_in_order(
                old(self)@.filter(outside_span(range@.start, range@.end)),
                range@.start,
                with@,
            ),
    {
        proof {
            use_type_invariant(&*self);
        }
        let start = *range.start();
        let end = *range.end();
        let mut stored = self.take_all();
        let ghost all = stored@;
        let mut kept: VecDeque<TimedMessage<M>> = VecDeque::new();
        while stored.len() > 0
            invariant
                stored@.len() <= all.len(),
                stored@ == all.skip(all.len() - stored@.len()),
                kept@ == all.take(all.len() - stored@.len()).filter(outside_span(start, end)),
            decreases stored@.len(),
        {
            let ghost done = all.len() - stored@.len();
            let m = stored.pop_front().unwrap();
            proof {
                lemma_take_one_more(all, done);
                all.take(done).lemma_filter_push(m, outside_span(start, end));
            }
            if m.time.lt(&start) || end.lt(&m.time) {
                kept.push_back(m);
            }
        }
        proof {
            assert(all.take(all.len() as int) == all);
            lemma_filter_keeps_order(all, outside_span(start, end));
        }
        self.messages = kept;
        self.insert_many_in_order(start, with);
    }

    /// Delete all messages stored in this buffer.
    pub fn clear(&mut self)
        ensures
            final(self)@ == Seq::<TimedMessage<M>>::empty(),
    {
        self.messages = VecDeque::new();
    }

    /// Insert a new message at the end.
    ///
    /// This does not delete any messages, which might allow for accidental infinite growth; thus
    /// [`Self::rotate`] is the better choice whenever applicable. The message must not be earlier
    /// than the currently last one; [`Self::insert_in_order`] takes a message at any time.
    pub fn push(&mut self, new: TimedMessage<M>)
        requires
            old(self)@.len() > 0 ==> old(self)@.last().time@ <= new.time@,
        ensures
            final(self)@ == old(self)@.push(new),
    {
        proof {
            use_type_invariant(&*self);
        }
        let mut messages = self.take_all();
        messages.push_back(new);
        self.messages = messages;
    }

    /// Delete all messages older than `delete_before`.
    pub fn delete_before(&mut self, delete_before: Duration)
        ensures
            final(self)@ == old(self)@.skip(first_sent_from(old(self)@, delete_before)),
            final(self)@.len() <= old(self)@.len(),
            final(self)@ == old(self)@.skip(old(self)@.len() - final(self)@.len()),
            forall|i: int|
                0 <= i < old(self)@.len() - final(self)@.len() ==> old(self)@[i].time@
                    < delete_before@,
            forall|i: int| 0 <= i < final(self)@.len() ==> final(self)@[i].time@ >= delete_before@,
    {
        proof {
            use_type_invariant(&*self);
        }
        let ghost start = self@;
        let mut messages = self.take_all();
        while messages.len() > 0 && messages[0].time.lt(&delete_before)
            invariant
                messages_in_order(start),
                messages@.len() <= start.len(),
                messages@ == start.skip(start.len() - messages@.len()),
                forall|i: int|
                    0 <= i < start.len() - messages@.len() ==> start[i].time@ < delete_before@,
            decreases messages@.len(),
        {
            messages.pop_front();
        }
        proof {
            lemma_first_sent_from(start, delete_before, start.len() - messages@.len());
        }
        self.messages = messages;
    }

    /// Delete all messages newer than `delete_after`.
    pub fn delete_after(&mut self, delete_after: Duration)
        ensures
            final(self)@.len() <= old(self)@.len(),
            final(self)@ == old(self)@.take(final(self)@.len() as int),
            forall|i: int|
                final(self)@.len() <= i < old(self)@.len() ==> old(self)@[i].time@ > delete_after@,
            forall|i: int| 0 <= i < final(self)@.len() ==> final(self)@[i].time@ <= delete_after@,
    {
        proof {
            use_type_invariant(&*self);
        }
        let ghost start = self@;
        let mut messages = self.take_all();
        while messages.len() > 0 && delete_after.lt(&messages[messages.len() - 1].time)
            invariant
                messages_in_order(start),
                messages@.len() <= start.len(),
                messages@ == start.take(messages@.len() as int),
                forall|i: int| messages@.len() <= i < start.len() ==> start[i].time@ > delete_after@,
            decreases messages@.len(),
        {
            messages.pop_back();
        }
        self.messages = messages;
    }

    /// Delete all messages older than `delete_older_than` and then insert `new` at the end. This is
    /// the recommended way to add messages, as it keeps the buffer from growing without bound.
    pub fn rotate(&mut self, delete_older_than: Duration, new: TimedMessage<M>)
        requires
            forall|i: int|
                0 <= i < old(self)@.len() && old(self)@[i].time@ >= delete_older_than@
                    ==> old(self)@[i].time@ <= new.time@,
        ensures
            final(self)@ == old(self)@.skip(first_sent_from(old(self)@, delete_older_than)).push(new),
            1 <= final(self)@.len() <= old(self)@.len() + 1,
            final(self)@.last() == new,
            final(self)@.drop_last() == old(self)@.skip(old(self)@.len() - (final(self)@.len() - 1)),
            forall|i: int|
                0 <= i < old(self)@.len() - (final(self)@.len() - 1) ==> old(self)@[i].time@
                    < delete_older_than@,
            forall|i: int|
                0 <= i < final(self)@.len() - 1 ==> final(self)@[i].time@ >= delete_older_than@,
    {
        self.delete_before(delete_older_than);
        self.push(new);
    }
}

/// Rewinding from `a` to `b` and then from `b` to `c`, all in one direction, passes no message
/// twice, and passes exactly the messages that rewinding from `a` to `c` at once passes.
pub proof fn lemma_rewinding_in_steps<M>(m: TimedMessage<M>, a: Duration, b: Duration, c: Duration)
    requires
        a@ <= b@ <= c@ || c@ <= b@ <= a@,
    ensures
        !(passed_rewinding(a, b)(m) && passed_rewinding(b, c)(m)),
        passed_rewinding(a, c)(m) <==> (passed_rewinding(a, b)(m) || passed_rewinding(b, c)(m)),
{
}

/// Rewinding a buffer forward from `a` to `b` and then from `b` to `c` yields, in order, the same
/// messages as rewinding from `a` to `c` at once.
pub proof fn lemma_rewinding_forward_in_steps<M>(
    s: Seq<TimedMessage<M>>,
    a: Duration,
    b: Duration,
    c: Duration,
)
    requires
        messages_in_order(s),
        a@ <= b@ <= c@,
    ensures
        s.filter(passed_rewinding(a, b)) + s.filter(passed_rewinding(b, c)) == s.filter(
            passed_rewinding(a, c),
        ),
    decreases s.len(),
{
    reveal(Seq::filter);
    if s.len() > 0 {
        let rest = s.drop_last();
        let x = s.last();
        lemma_rewinding_forward_in_steps(rest, a, b, c);
        lemma_rewinding_in_steps(x, a, b, c);
        if passed_rewinding(a, b)(x) && !passed_rewinding(b, c)(x) {
            rest.lemma_all_neg_filter_empty(passed_rewinding(b, c));
        }
        assert(s.filter(passed_rewinding(a, b)) + s.filter(passed_rewinding(b, c)) =~= s.filter(
            passed_rewinding(a, c),
        ));
    }
}

/// Rewinding a buffer backward from `c` to `b` and then from `b` to `a` yields the same messages
/// as rewinding from `c` to `a` at once; in the order of the buffer, the messages of the second
/// step come first.
pub proof fn lemma_rewinding_backward_in_steps<M>(
    s: Seq<TimedMessage<M>>,
    a: Duration,
    b: Duration,
    c: Duration,
)
    requires
        messages_in_order(s),
        a@ <= b@ <= c@,
    ensures
        s.filter(passed_rewinding(b, a)) + s.filter(passed_rewinding(c, b)) == s.filter(
            passed_rewinding(c, a),
        ),
    decreases s.len(),
{
    reveal(Seq::filter);
    if s.len() > 0 {
        let rest = s.drop_last();
        let x = s.last();
        lemma_rewinding_backward_in_steps(rest, a, b, c);
        lemma_rewinding_in_steps(x, c, b, a);
        if passed_rewinding(b, a)(x) && !passed_rewinding(c, b)(x) {
            rest.lemma_all_neg_filter_empty(passed_rewinding(c, b));
        }
        assert(s.filter(passed_rewinding(b, a)) + s.filter(passed_rewinding(c, b)) =~= s.filter(
            passed_rewinding(c, a),
        ));
    }
}

proof fn lemma_first_sent_after_bounds<M>(s: Seq<TimedMessage<M>>, time: Duration)
    ensures
        0 <= first_sent_after(s, time) <= s.len(),
        forall|i: int| 0 <= i < first_sent_after(s, time) ==> s[i].time@ <= time@,
        first_sent_after(s, time) < s.len() ==> s[first_sent_after(s, time)].time@ > time@,
    decreases s.len(),
{
    if s.len() > 0 && s[0].time@ <= time@ {
        let rest = s.drop_first();
        lemma_first_sent_after_bounds(rest, time);
        assert forall|i: int| 0 <= i < first_sent_after(s, time) implies s[i].time@ <= time@ by {
            if i > 0 {
                assert(s[i] == rest[i - 1]);
            }
        }
    }
}

/// Inserting messages in order keeps a buffer's messages in the order in which they were sent.
pub proof fn lemma_insertion_keeps_order<M>(s: Seq<TimedMessage<M>>, time: Duration, msgs: Seq<M>)
    requires
        messages_in_order(s),
    ensures
        messages_in_order(inserted_in_order(s, time, msgs)),
{
    lemma_first_sent_after_bounds(s, time);
}

} // verus!
