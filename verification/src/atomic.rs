//! An atomic marked pointer to a heap allocated record.

mod compare;
mod store;

use core::marker::PhantomData;
use core::sync::atomic::{AtomicUsize, Ordering};

use vstd::prelude::*;

use crate::marked::{addr_of, MarkedPtr};
use crate::traits::{Protect, SharedPointer};
use crate::{Maybe, NotEqual, Owned, Protected, Unlinked, Unprotected};

pub use self::compare::{maybe_unlinks_to, CompareArg, Comparable, Unlink};
pub use self::store::{StoreArg, Storable};

verus! {

// *************************************************************************************************
// memory orderings
// *************************************************************************************************

/// Whether `order` is a valid memory ordering for loads.
pub open spec fn is_load_ordering(order: Ordering) -> bool {
    !(order matches Ordering::Release) && !(order matches Ordering::AcqRel)
}

/// Whether `order` is a valid memory ordering for stores.
pub open spec fn is_store_ordering(order: Ordering) -> bool {
    !(order matches Ordering::Acquire) && !(order matches Ordering::AcqRel)
}

// *************************************************************************************************
// trusted compare-exchange operations on the pointer word
// *************************************************************************************************

/// Calls `AtomicUsize::compare_exchange`: the value is replaced by `new` if,
/// and only if, it equals `current`; the previous value is returned in `Ok`
/// on success and in `Err` on failure, where it can not equal `current`.
/// Which of both happens depends on concurrent threads and is not stated.
#[verifier::external_body]
fn word_compare_exchange(
    atomic: &AtomicUsize,
    current: usize,
    new: usize,
    success: Ordering,
    failure: Ordering,
) -> (r: Result<usize, usize>)
    requires
        is_load_ordering(failure),
    ensures
        match r {
            Ok(prev) => prev == current,
            Err(prev) => prev != current,
        },
{
    atomic.compare_exchange(current, new, success, failure)
}

/// Calls `AtomicUsize::compare_exchange_weak`: like `compare_exchange`, but it
/// may also fail spuriously, so only a success is known to have observed
/// `current`.
#[verifier::external_body]
fn word_compare_exchange_weak(
    atomic: &AtomicUsize,
    current: usize,
    new: usize,
    success: Ordering,
    failure: Ordering,
) -> (r: Result<usize, usize>)
    requires
        is_load_ordering(failure),
    ensures
        r matches Ok(prev) ==> prev == current,
{
    atomic.compare_exchange_weak(current, new, success, failure)
}

// *************************************************************************************************
// Atomic
// *************************************************************************************************

/// An atomic marked pointer type to a heap allocated value similar to
/// `AtomicPtr`.
///
/// The type does not take care of memory de-allocation when it goes out of
/// scope: use [`take`][Atomic::take] to extract an (optional) [`Owned`].
pub struct Atomic<T, R, const N: usize> {
    inner: AtomicUsize,
    _marker: PhantomData<(T, R)>,
}

impl<T, R, const N: usize> Atomic<T, R, N> {
    /// Creates a new `null` pointer.
    pub fn null() -> (a: Self) {
        Atomic { inner: AtomicUsize::new(0), _marker: PhantomData }
    }

    /// The underlying atomic pointer word.
    pub closed spec fn raw(self) -> AtomicUsize {
        self.inner
    }

    /// Returns a reference to the underlying atomic pointer word.
    pub fn as_raw(&self) -> (r: &AtomicUsize)
        ensures
            *r == self.raw(),
    {
        &self.inner
    }

    /// Creates a new [`Atomic`] from the given raw marked pointer.
    pub fn from_raw(ptr: MarkedPtr<N>) -> (a: Self) {
        Atomic { inner: AtomicUsize::new(ptr.into_usize()), _marker: PhantomData }
    }

    /// Creates a new [`Atomic`] that holds the record of `owned`.
    pub fn from_owned(owned: Owned<T, R, N>) -> (a: Self) {
        Self::from_raw(Owned::into_marked_ptr(owned))
    }

    /// Creates a new [`Atomic`] that holds the pointer of `storable`.
    pub fn from_storable(storable: Storable<T, R, N>) -> (a: Self) {
        Self::from_raw(storable.into_marked_ptr())
    }

    /// Replaces the pointer by `null` and returns the previous record as an
    /// [`Owned`], unless the previous pointer was `null`.
    pub fn take(&mut self) -> (r: Option<Owned<T, R, N>>)
        ensures
            r matches Some(owned) ==> addr_of(owned.word(), N) != 0,
    {
        let prev = MarkedPtr::<N>::from_usize(self.inner.swap(0, Ordering::Relaxed));
        SharedPointer::from_marked_ptr(prev)
    }

    /// Consumes the [`Atomic`] and returns its record as an [`Owned`], unless
    /// its pointer is `null`.
    pub fn into_owned(self) -> (r: Option<Owned<T, R, N>>)
        ensures
            r matches Some(owned) ==> addr_of(owned.word(), N) != 0,
    {
        let ptr = MarkedPtr::<N>::from_usize(self.inner.load(Ordering::Relaxed));
        SharedPointer::from_marked_ptr(ptr)
    }

    /// Loads a raw marked pointer from the [`Atomic`].
    pub fn load_raw(&self, order: Ordering) -> (p: MarkedPtr<N>)
        requires
            is_load_ordering(order),
    {
        MarkedPtr::from_usize(self.inner.load(order))
    }

    /// Loads an [`Unprotected`] pointer from the [`Atomic`], which is not
    /// protected from reclamation.
    pub fn load_unprotected(&self, order: Ordering) -> (p: Unprotected<T, R, N>)
        requires
            is_load_ordering(order),
    {
        Unprotected::from_marked_ptr(self.load_raw(order))
    }

    /// Loads a value from the pointer using `guard` to protect it from
    /// reclamation.
    pub fn load<'g, G: Protect<T, Reclaim = R>>(&self, guard: &'g mut G, order: Ordering) -> (p:
        Protected<'g, T, R, N>)
        requires
            is_load_ordering(order),
    {
        guard.protect(self, order)
    }

    /// Loads and protects a value from the pointer, if it equals `expected`.
    pub fn load_if_equal<'g, G: Protect<T, Reclaim = R>>(
        &self,
        expected: MarkedPtr<N>,
        guard: &'g mut G,
        order: Ordering,
    ) -> (r: Result<Protected<'g, T, R, N>, NotEqual>)
        requires
            is_load_ordering(order),
        ensures
            r matches Ok(p) ==> p.word() == expected@,
    {
        guard.protect_if_equal(self, expected, order)
    }

    /// Stores either `null` or a pointer to an owned record into the
    /// [`Atomic`].
    pub fn store<S: StoreArg<T, R, N>>(&self, new: S, order: Ordering)
        requires
            is_store_ordering(order),
    {
        let store = new.as_store_ptr();
        self.inner.store(store.into_usize(), order);
    }

    /// Stores either `null` or a pointer to an owned record into the
    /// [`Atomic`] and returns the previous (now unlinked) value.
    pub fn swap<S: StoreArg<T, R, N>>(&self, new: S, order: Ordering) -> (r: Maybe<
        Unlinked<T, R, N>,
    >)
        ensures
            exists|prev: usize| maybe_unlinks_to(prev, r),
    {
        let store = new.as_store_ptr();
        let prev = self.inner.swap(store.into_usize(), order);
        Unprotected::<T, R, N>::from_marked_ptr(MarkedPtr::from_usize(prev)).into_unlinked()
    }

    /// Decides the result of a compare-exchange with the compare argument
    /// `current` and the store argument `new`, given what the atomic
    /// operation on the pointer word returned (`Ok` on success, `Err` on
    /// failure, each with the previous word).
    pub fn compare_exchange_outcome<C: CompareArg<T, R, N>, S: StoreArg<T, R, N>>(
        current: C,
        new: S,
        observed: Result<usize, usize>,
    ) -> (r: Result<C::Unlinked, CompareExchangeErr<S, T, R, N>>)
        ensures
            match observed {
                Ok(_) => r matches Ok(u) && current.unlinks_to(u),
                Err(prev) => r matches Err(e) && e.loaded.word() == prev && e.input == new,
            },
    {
        match observed {
            Ok(_) => Ok(current.into_unlinked()),
            Err(prev) => Err(
                CompareExchangeErr {
                    loaded: Unprotected::from_marked_ptr(MarkedPtr::from_usize(prev)),
                    input: new,
                },
            ),
        }
    }

    /// Stores `new` into the [`Atomic`], if its current value equals
    /// `current`; on success the previous value is returned unlinked, on
    /// failure the loaded value and `new` are returned.
    pub fn compare_exchange<C: CompareArg<T, R, N>, S: StoreArg<T, R, N>>(
        &self,
        current: C,
        new: S,
        orders: (Ordering, Ordering),
    ) -> (r: Result<C::Unlinked, CompareExchangeErr<S, T, R, N>>)
        requires
            is_load_ordering(orders.1),
        ensures
            match r {
                Ok(u) => current.unlinks_to(u),
                Err(e) => e.input == new && e.loaded.word() != current.compare_word(),
            },
    {
        let (success, failure) = orders;
        let compare = current.as_compare_ptr().into_usize();
        let store = new.as_store_ptr().into_usize();
        let observed = word_compare_exchange(&self.inner, compare, store, success, failure);
        Self::compare_exchange_outcome(current, new, observed)
    }

    /// Like [`compare_exchange`][Atomic::compare_exchange], but it may fail
    /// spuriously even if the current value equals `current`.
    pub fn compare_exchange_weak<C: CompareArg<T, R, N>, S: StoreArg<T, R, N>>(
        &self,
        current: C,
        new: S,
        orders: (Ordering, Ordering),
    ) -> (r: Result<C::Unlinked, CompareExchangeErr<S, T, R, N>>)
        requires
            is_load_ordering(orders.1),
        ensures
            match r {
                Ok(u) => current.unlinks_to(u),
                Err(e) => e.input == new,
            },
    {
        let (success, failure) = orders;
        let compare = current.as_compare_ptr().into_usize();
        let store = new.as_store_ptr().into_usize();
        let observed = word_compare_exchange_weak(&self.inner, compare, store, success, failure);
        Self::compare_exchange_outcome(current, new, observed)
    }

    /// Loads a raw marked pointer from the [`Atomic`] and returns it, if it
    /// equals `expected`.
    pub(crate) fn load_raw_if_equal(&self, expected: MarkedPtr<N>, order: Ordering) -> (r: Result<
        MarkedPtr<N>,
        NotEqual,
    >)
        requires
            is_load_ordering(order),
        ensures
            r matches Ok(p) ==> p@ == expected@,
    {
        Self::if_equal(self.load_raw(order), expected)
    }

    /// Decides the result of a conditional load, given the `loaded` pointer:
    /// it is returned if it equals `expected`.
    pub fn if_equal(loaded: MarkedPtr<N>, expected: MarkedPtr<N>) -> (r: Result<
        MarkedPtr<N>,
        NotEqual,
    >)
        ensures
            match r {
                Ok(p) => loaded@ == expected@ && p == loaded,
                Err(_) => loaded@ != expected@,
            },
    {
        if loaded.into_usize() == expected.into_usize() {
            Ok(loaded)
        } else {
            Err(NotEqual)
        }
    }
}

/********** impl Default **************************************************************************/

impl<T, R, const N: usize> Default for Atomic<T, R, N> {
    fn default() -> (a: Self) {
        Self::null()
    }
}

// *************************************************************************************************
// CompareExchangeErr
// *************************************************************************************************

/// The error of a failed compare-exchange operation.
#[derive(Copy, Clone, Debug, Eq, Ord, PartialEq, PartialOrd)]
pub struct CompareExchangeErr<S, T, R, const N: usize> {
    /// The actually loaded value.
    pub loaded: Unprotected<T, R, N>,
    /// The value with which the failed exchange was attempted.
    pub input: S,
}

} // verus!
