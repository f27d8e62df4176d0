//! [`Timeline`] and [`Continuum`]: the traits that organize time travel state.

use core::fmt::Debug;
use core::hash::Hash;
use core::ops::{Deref, DerefMut};

use vstd::prelude::*;

use crate::rewind_buffer::RewindBuffer;

verus! {

/// A series of timestamped states, i.e. moments, of one kind of item.
///
/// For example, a timeline with `Item = Transform` is a component that holds a
/// [`RewindBuffer<Transform>`] and saves and manipulates the state of the `Transform` component
/// on the same entity across time.
pub trait Timeline: Deref<Target = RewindBuffer<Self::Item>> + DerefMut {
    /// Item type that this timeline is for.
    type Item: Clone + Send + Sync + 'static;

    /// The [`Continuum`] this timeline is a part of.
    type Continuum: Continuum;

    /// `true` if the item is to be considered "teleported" in the current moment: the next
    /// recorded moment is then snapped to. Setting this is left to the implementor; by default
    /// it is always `false`.
    fn discontinuity(&self) -> (r: bool)
        default_ensures
            !r,
    {
        false
    }

    /// Reset the discontinuity, after the next moment was recorded. Does nothing by default.
    fn reset_discontinuity(&mut self) {
    }
}

/// A type that groups [`Timeline`]s into one unified set of time travel schedules; typically a
/// zero sized type.
pub trait Continuum: Default + Clone + Eq + Hash + Debug + Send + Sync + 'static {

}

} // verus!
