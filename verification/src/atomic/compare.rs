use core::marker::PhantomData;

use vstd::prelude::*;

use crate::marked::{addr_of, tag_of, MarkedNonNull, MarkedPtr, Null};
use crate::{Maybe, Protected, Shared, Unlinked, Unprotected};

verus! {

// *************************************************************************************************
// Unlink (trait)
// *************************************************************************************************

/// A trait for transforming some marked pointer type into an appropriate
/// [`Unlinked`] or `null` variant after a successful compare-exchange
/// operation.
pub trait Unlink: Sized {
    /// The [`Unlinked`] type.
    type Unlinked;

    /// Whether `unlinked` is the unlinked counterpart of `self`.
    spec fn unlinks_to(self, unlinked: Self::Unlinked) -> bool;

    /// Converts `self` into the associated unlinked type.
    fn into_unlinked(self) -> (u: Self::Unlinked)
        ensures
            self.unlinks_to(u),
    ;
}

/// Whether `m` is the (maybe `null`) unlinked counterpart of the word `w`.
pub open spec fn maybe_unlinks_to<T, R, const N: usize>(w: usize, m: Maybe<Unlinked<T, R, N>>) -> bool {
    match m {
        Maybe::NotNull(u) => addr_of(w, N) != 0 && u.word() == w,
        Maybe::Null(tag) => addr_of(w, N) == 0 && tag == tag_of(w, N),
    }
}

// *************************************************************************************************
// CompareArg (trait)
// *************************************************************************************************

/// A trait for the marked pointer types that can be used as the compare
/// argument of a compare-exchange operation.
pub trait CompareArg<T, R, const N: usize>: Unlink + Copy {
    /// The marked pointer word that is compared.
    spec fn compare_word(&self) -> usize;

    /// Returns the marked pointer that is compared.
    fn as_compare_ptr(&self) -> (p: MarkedPtr<N>)
        ensures
            p@ == self.compare_word(),
    ;
}

// *************************************************************************************************
// Comparable
// *************************************************************************************************

/// A raw, nullable and potentially marked pointer type that is associated to
/// a reclamation mechanism and can be used as the compare argument for a
/// compare-exchange operation.
pub struct Comparable<T, R, const N: usize> {
    inner: MarkedPtr<N>,
    _marker: PhantomData<(T, R)>,
}

/********** impl Clone + Copy *********************************************************************/

impl<T, R, const N: usize> Clone for Comparable<T, R, N> {
    fn clone(&self) -> (r: Self)
        ensures
            r == *self,
    {
        Comparable { inner: self.inner, _marker: PhantomData }
    }
}

impl<T, R, const N: usize> Copy for Comparable<T, R, N> {}

/********** impl inherent *************************************************************************/

impl<T, R, const N: usize> Comparable<T, R, N> {
    /// The raw marked pointer word.
    pub closed spec fn word(self) -> usize {
        self.inner@
    }

    /// Creates a new `null` pointer.
    pub fn null() -> (c: Self)
        ensures
            c.word() == 0,
    {
        Self::new(MarkedPtr::null())
    }

    /// Returns the inner raw marked pointer.
    pub fn into_marked_ptr(self) -> (p: MarkedPtr<N>)
        ensures
            p@ == self.word(),
    {
        self.inner
    }

    /// Creates a new `Comparable`.
    pub(crate) fn new(inner: MarkedPtr<N>) -> (c: Self)
        ensures
            c.word() == inner@,
    {
        Comparable { inner, _marker: PhantomData }
    }

    /// Converts a [`Protected`] into a [`Comparable`].
    pub fn from_protected(protected: Protected<'_, T, R, N>) -> (c: Self)
        ensures
            c.word() == protected.word(),
    {
        Self::new(protected.into_marked_ptr())
    }

    /// Converts a [`Shared`] into a [`Comparable`].
    pub fn from_shared(shared: Shared<'_, T, R, N>) -> (c: Self)
        ensures
            c.word() == shared.word(),
    {
        Self::new(shared.into_marked_ptr())
    }

    /// Converts an [`Unprotected`] into a [`Comparable`].
    pub fn from_unprotected(unprotected: Unprotected<T, R, N>) -> (c: Self)
        ensures
            c.word() == unprotected.word(),
    {
        Self::new(unprotected.into_marked_ptr())
    }
}

/********** impl Unlink ***************************************************************************/

impl<T, R, const N: usize> Unlink for Protected<'_, T, R, N> {
    type Unlinked = Maybe<Unlinked<T, R, N>>;

    open spec fn unlinks_to(self, unlinked: Maybe<Unlinked<T, R, N>>) -> bool {
        maybe_unlinks_to(self.word(), unlinked)
    }

    fn into_unlinked(self) -> (u: Maybe<Unlinked<T, R, N>>) {
        Unprotected::<T, R, N>::from_marked_ptr(self.into_marked_ptr()).into_unlinked()
    }
}

impl<T, R, const N: usize> Unlink for Shared<'_, T, R, N> {
    type Unlinked = Unlinked<T, R, N>;

    open spec fn unlinks_to(self, unlinked: Unlinked<T, R, N>) -> bool {
        unlinked.word() == self.word()
    }

    fn into_unlinked(self) -> (u: Unlinked<T, R, N>) {
        Unlinked::from_marked_non_null(self.as_marked_non_null())
    }
}

impl<T, R, const N: usize> Unlink for Unprotected<T, R, N> {
    type Unlinked = Maybe<Unlinked<T, R, N>>;

    open spec fn unlinks_to(self, unlinked: Maybe<Unlinked<T, R, N>>) -> bool {
        maybe_unlinks_to(self.word(), unlinked)
    }

    fn into_unlinked(self) -> (u: Maybe<Unlinked<T, R, N>>) {
        match MarkedNonNull::new(self.into_marked_ptr()) {
            Ok(inner) => Maybe::NotNull(Unlinked::from_marked_non_null(inner)),
            Err(Null(tag)) => Maybe::Null(tag),
        }
    }
}

/********** impl CompareArg ***********************************************************************/

impl<T, R, const N: usize> CompareArg<T, R, N> for Protected<'_, T, R, N> {
    open spec fn compare_word(&self) -> usize {
        self.word()
    }

    fn as_compare_ptr(&self) -> (p: MarkedPtr<N>) {
        self.into_marked_ptr()
    }
}

impl<T, R, const N: usize> CompareArg<T, R, N> for Shared<'_, T, R, N> {
    open spec fn compare_word(&self) -> usize {
        self.word()
    }

    fn as_compare_ptr(&self) -> (p: MarkedPtr<N>) {
        self.into_marked_ptr()
    }
}

impl<T, R, const N: usize> CompareArg<T, R, N> for Unprotected<T, R, N> {
    open spec fn compare_word(&self) -> usize {
        self.word()
    }

    fn as_compare_ptr(&self) -> (p: MarkedPtr<N>) {
        self.into_marked_ptr()
    }
}

} // verus!
