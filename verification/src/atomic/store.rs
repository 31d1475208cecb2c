use core::marker::PhantomData;

use vstd::prelude::*;

use crate::marked::{addr_of, tag_of, MarkedPtr};
use crate::{Owned, Protected, Shared};

verus! {

// *************************************************************************************************
// StoreArg (trait)
// *************************************************************************************************

/// A trait for the marked pointer types that can be stored into an atomic
/// pointer: either `null` or pointers to live records.
pub trait StoreArg<T, R, const N: usize>: Sized {
    /// The marked pointer word that is stored.
    spec fn store_word(&self) -> usize;

    /// Returns the marked pointer that is stored.
    fn as_store_ptr(&self) -> (p: MarkedPtr<N>)
        ensures
            p@ == self.store_word(),
    ;
}

// *************************************************************************************************
// Storable
// *************************************************************************************************

/// A raw, nullable and potentially marked pointer that is associated to a
/// reclamation mechanism and can be stored into an atomic pointer.
pub struct Storable<T, R, const N: usize> {
    inner: MarkedPtr<N>,
    _marker: PhantomData<(T, R)>,
}

/********** impl Clone + Copy *********************************************************************/

impl<T, R, const N: usize> Clone for Storable<T, R, N> {
    fn clone(&self) -> (r: Self)
        ensures
            r == *self,
    {
        Storable { inner: self.inner, _marker: PhantomData }
    }
}

impl<T, R, const N: usize> Copy for Storable<T, R, N> {}

/********** impl inherent *************************************************************************/

impl<T, R, const N: usize> Storable<T, R, N> {
    /// The raw marked pointer word.
    pub closed spec fn word(self) -> usize {
        self.inner@
    }

    /// The address part of the pointer.
    pub open spec fn addr(self) -> usize {
        addr_of(self.word(), N)
    }

    /// The tag part of the pointer.
    pub open spec fn tag(self) -> usize {
        tag_of(self.word(), N)
    }

    /// Creates a new `null` pointer.
    pub fn null() -> (s: Self)
        ensures
            s.word() == 0,
    {
        Self::new(MarkedPtr::null())
    }

    /// Returns the inner raw marked pointer.
    pub fn into_marked_ptr(self) -> (p: MarkedPtr<N>)
        ensures
            p@ == self.word(),
    {
        self.inner
    }

    /// Creates a new `Storable`.
    pub(crate) fn new(inner: MarkedPtr<N>) -> (s: Self)
        ensures
            s.word() == inner@,
    {
        Storable { inner, _marker: PhantomData }
    }

    /// Converts an [`Owned`] into a [`Storable`], handing over its record.
    pub fn from_owned(owned: Owned<T, R, N>) -> (s: Self)
        ensures
            s.word() == owned.word(),
    {
        Self::new(Owned::into_marked_ptr(owned))
    }

    /// Converts a [`Protected`] into a [`Storable`].
    pub fn from_protected(protected: Protected<'_, T, R, N>) -> (s: Self)
        ensures
            s.word() == protected.word(),
    {
        Self::new(protected.into_marked_ptr())
    }

    /// Converts a [`Shared`] into a [`Storable`].
    pub fn from_shared(shared: Shared<'_, T, R, N>) -> (s: Self)
        ensures
            s.word() == shared.word(),
    {
        Self::new(shared.into_marked_ptr())
    }
}

/********** impl StoreArg *************************************************************************/

impl<T, R, const N: usize> StoreArg<T, R, N> for Storable<T, R, N> {
    open spec fn store_word(&self) -> usize {
        self.word()
    }

    fn as_store_ptr(&self) -> (p: MarkedPtr<N>) {
        self.inner
    }
}

impl<T, R, const N: usize> StoreArg<T, R, N> for Owned<T, R, N> {
    open spec fn store_word(&self) -> usize {
        self.word()
    }

    fn as_store_ptr(&self) -> (p: MarkedPtr<N>) {
        Owned::as_marked_ptr(self)
    }
}

impl<T, R, const N: usize> StoreArg<T, R, N> for Protected<'_, T, R, N> {
    open spec fn store_word(&self) -> usize {
        self.word()
    }

    fn as_store_ptr(&self) -> (p: MarkedPtr<N>) {
        self.into_marked_ptr()
    }
}

impl<T, R, const N: usize> StoreArg<T, R, N> for Shared<'_, T, R, N> {
    open spec fn store_word(&self) -> usize {
        self.word()
    }

    fn as_store_ptr(&self) -> (p: MarkedPtr<N>) {
        self.into_marked_ptr()
    }
}

} // verus!
