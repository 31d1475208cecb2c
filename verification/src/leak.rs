//! A reclamation mechanism that never reclaims any retired records, i.e.,
//! leaks them.

use core::sync::atomic::Ordering;

use vstd::prelude::*;

use crate::atomic::is_load_ordering;
use crate::marked::MarkedPtr;
use crate::traits::{Protect, Reclaim, ReclaimBase};
use crate::NotEqual;

verus! {

/// A specialization of the [`Atomic`](crate::atomic::Atomic) type using
/// [`Leaking`] as reclaimer.
pub type Atomic<T, const N: usize> = crate::atomic::Atomic<T, Leaking, N>;

/// A specialization of the [`Owned`](crate::Owned) type using [`Leaking`] as
/// reclaimer.
pub type Owned<T, const N: usize> = crate::Owned<T, Leaking, N>;

/// A specialization of the [`Protected`](crate::Protected) type using
/// [`Leaking`] as reclaimer.
pub type Protected<'g, T, const N: usize> = crate::Protected<'g, T, Leaking, N>;

/// A specialization of the [`Shared`](crate::Shared) type using [`Leaking`] as
/// reclaimer.
pub type Shared<'g, T, const N: usize> = crate::Shared<'g, T, Leaking, N>;

/// A specialization of the [`Unlinked`](crate::Unlinked) type using [`Leaking`]
/// as reclaimer.
pub type Unlinked<T, const N: usize> = crate::Unlinked<T, Leaking, N>;

/// A specialization of the [`Unprotected`](crate::Unprotected) type using
/// [`Leaking`] as reclaimer.
pub type Unprotected<T, const N: usize> = crate::Unprotected<T, Leaking, N>;

// *************************************************************************************************
// Leaking
// *************************************************************************************************

/// The leaking reclamation mechanism: retired records are never reclaimed.
#[derive(Debug, Default, Hash, Eq, Ord, PartialEq, PartialOrd)]
pub struct Leaking;

impl ReclaimBase for Leaking {
    type Header = ();
    type Retired = ();

    open spec fn data_ptr_spec(retired: usize) -> usize {
        retired
    }

    open spec fn header_ptr_spec(retired: usize) -> usize {
        retired
    }

    fn as_data_ptr(retired: usize) -> (data: usize) {
        retired
    }

    fn as_header_ptr(retired: usize) -> (header: usize) {
        // the header of a leaked record is zero-sized and hence starts at the
        // record's data
        retired
    }
}

impl<T> Reclaim<T> for Leaking {
    open spec fn retire_spec(ptr: usize, retired: usize) -> bool {
        retired == ptr
    }

    fn retire(ptr: usize) -> (retired: usize) {
        ptr
    }
}

// *************************************************************************************************
// Guard
// *************************************************************************************************

/// The guard of the [`Leaking`] mechanism, which protects every value it
/// loads, since no value is ever reclaimed.
#[derive(Clone, Copy, Debug, Default, Hash, Eq, Ord, PartialEq, PartialOrd)]
pub struct Guard;

impl<T> Protect<T> for Guard {
    type Reclaim = Leaking;

    open spec fn protects_region() -> bool {
        false
    }

    open spec fn is_released(&self) -> bool {
        true
    }

    open spec fn released(&self) -> Self {
        *self
    }

    fn release(&mut self) {
        // a leaking guard holds no protection of its own: nothing is ever
        // reclaimed
    }

    fn protect<'g, const N: usize>(
        &'g mut self,
        atomic: &Atomic<T, N>,
        order: Ordering,
    ) -> Protected<'g, T, N> {
        crate::Protected::from_marked_ptr(atomic.load_raw(order))
    }

    fn protect_if_equal<'g, const N: usize>(
        &'g mut self,
        atomic: &Atomic<T, N>,
        expected: MarkedPtr<N>,
        order: Ordering,
    ) -> (r: Result<Protected<'g, T, N>, NotEqual>) {
        match atomic.load_raw_if_equal(expected, order) {
            Ok(ptr) => Ok(crate::Protected::from_marked_ptr(ptr)),
            Err(e) => Err(e),
        }
    }
}

impl<T> Protect<T> for &Guard {
    type Reclaim = Leaking;

    open spec fn protects_region() -> bool {
        false
    }

    open spec fn is_released(&self) -> bool {
        true
    }

    open spec fn released(&self) -> Self {
        *self
    }

    fn release(&mut self) {
        // a leaking guard holds no protection of its own: nothing is ever
        // reclaimed
    }

    fn protect<'g, const N: usize>(
        &'g mut self,
        atomic: &Atomic<T, N>,
        order: Ordering,
    ) -> Protected<'g, T, N> {
        crate::Protected::from_marked_ptr(atomic.load_raw(order))
    }

    fn protect_if_equal<'g, const N: usize>(
        &'g mut self,
        atomic: &Atomic<T, N>,
        expected: MarkedPtr<N>,
        order: Ordering,
    ) -> (r: Result<Protected<'g, T, N>, NotEqual>) {
        match atomic.load_raw_if_equal(expected, order) {
            Ok(ptr) => Ok(crate::Protected::from_marked_ptr(ptr)),
            Err(e) => Err(e),
        }
    }
}

} // verus!
