//! The current time of a continuum, and the timeline that records which times are stored in it.

use core::ops::{Deref, DerefMut};

use vstd::prelude::*;

use crate::continuum::{Continuum, Timeline};
use crate::duration::Duration;
use crate::rewind_buffer::RewindBuffer;

verus! {

/// The time at which a [`Continuum`] is currently believed to be.
#[derive(Clone, Debug, Hash, PartialEq, Eq)]
pub struct ContinuumTime<C: Continuum> {
    /// Time at which this continuum is currently believed to be.
    pub time: Duration,
    /// The continuum.
    pub continuum: C,
}

impl<C: Continuum> Default for ContinuumTime<C> {
    /// Time zero of the default continuum.
    fn default() -> (t: Self)
        ensures
            t.time@ == 0,
    {
        ContinuumTime { time: Duration::zero(), continuum: C::default() }
    }
}

/// A timeline that keeps track of which span of time is recorded in a continuum. In every stored
/// moment, the time of the moment is the time of the [`ContinuumTime`] stored within it.
#[derive(Debug)]
pub struct Timekeep<C: Continuum> {
    /// The moments recorded in this continuum.
    pub buf: RewindBuffer<ContinuumTime<C>>,
    /// The continuum this timekeep keeps time for.
    pub continuum: C,
}

impl<C: Continuum> Timekeep<C> {
    /// A new, empty timekeep for `continuum`.
    pub fn with_continuum(continuum: C) -> (t: Self)
        ensures
            t.buf@ == Seq::<crate::rewind_buffer::Moment<ContinuumTime<C>>>::empty(),
            t.continuum == continuum,
    {
        Timekeep { buf: RewindBuffer::new(), continuum }
    }
}

impl<C: Continuum> Default for Timekeep<C> {
    /// A new, empty timekeep for the default continuum.
    fn default() -> (t: Self)
        ensures
            t.buf@ == Seq::<crate::rewind_buffer::Moment<ContinuumTime<C>>>::empty(),
    {
        Timekeep { buf: RewindBuffer::new(), continuum: C::default() }
    }
}

impl<C: Continuum> Deref for Timekeep<C> {
    type Target = RewindBuffer<ContinuumTime<C>>;

    fn deref(&self) -> (r: &RewindBuffer<ContinuumTime<C>>)
        ensures
            *r == self.buf,
    {
        &self.buf
    }
}

impl<C: Continuum> DerefMut for Timekeep<C> {
    fn deref_mut(&mut self) -> (r: &mut RewindBuffer<ContinuumTime<C>>)
        ensures
            *r == old(self).buf,
            final(self).buf == *final(r),
            final(self).continuum == old(self).continuum,
    {
        &mut self.buf
    }
}

impl<C: Continuum> Timeline for Timekeep<C> {
    type Item = ContinuumTime<C>;

    type Continuum = C;
}

} // verus!
