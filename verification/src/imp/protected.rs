use core::marker::PhantomData;

use vstd::prelude::*;

use crate::marked::{addr_of, compose_word, mark_mask, tag_of, MarkedNonNull, MarkedPtr, Null};
use crate::{Maybe, Protected, Shared};

verus! {

/********** impl Clone + Copy *********************************************************************/

impl<T, R, const N: usize> Clone for Protected<'_, T, R, N> {
    fn clone(&self) -> (r: Self)
        ensures
            r == *self,
    {
        Protected { inner: self.inner, _marker: PhantomData }
    }
}

impl<T, R, const N: usize> Copy for Protected<'_, T, R, N> {}

/********** impl Default **************************************************************************/

impl<T, R, const N: usize> Default for Protected<'_, T, R, N> {
    fn default() -> (r: Self)
        ensures
            r.word() == 0,
    {
        Self::null()
    }
}

/********** impl inherent *************************************************************************/

impl<'g, T, R, const N: usize> Protected<'g, T, R, N> {
    /// The raw marked pointer word.
    pub closed spec fn word(self) -> usize {
        self.inner@
    }

    /// The address part of the pointer.
    pub open spec fn addr(self) -> usize {
        addr_of(self.word(), N)
    }

    /// The tag part of the pointer.
    pub open spec fn tag(self) -> usize {
        tag_of(self.word(), N)
    }

    /// Creates a new `null` pointer.
    pub fn null() -> (p: Self)
        ensures
            p.word() == 0,
            p.addr() == 0,
            p.tag() == 0,
    {
        Protected { inner: MarkedPtr::null(), _marker: PhantomData }
    }

    /// Casts the pointer into a pointer to a different type and with a
    /// different lifetime.
    pub fn cast<'a, U>(self) -> (p: Protected<'a, U, R, N>)
        ensures
            p.word() == self.word(),
    {
        Protected { inner: self.inner, _marker: PhantomData }
    }

    /// Creates a [`Protected`] from a raw marked pointer.
    pub fn from_marked_ptr(ptr: MarkedPtr<N>) -> (p: Self)
        ensures
            p.word() == ptr@,
    {
        Protected { inner: ptr, _marker: PhantomData }
    }

    /// Creates a [`Protected`] from a non-nullable marked pointer.
    pub fn from_marked_non_null(ptr: MarkedNonNull<N>) -> (p: Self)
        ensures
            p.word() == ptr@,
            p.addr() != 0,
    {
        Protected { inner: ptr.into_marked_ptr(), _marker: PhantomData }
    }

    /// Returns `true` if the address part of the pointer is `null`.
    pub fn is_null(self) -> (b: bool)
        ensures
            b == (self.addr() == 0),
    {
        self.inner.is_null()
    }

    /// Returns the raw marked pointer.
    pub fn into_marked_ptr(self) -> (p: MarkedPtr<N>)
        ensures
            p@ == self.word(),
    {
        self.inner
    }

    /// Returns the pointer with a cleared tag.
    pub fn clear_tag(self) -> (p: Self)
        ensures
            p.addr() == self.addr(),
            p.tag() == 0,
            p.word() == self.addr(),
    {
        Protected { inner: self.inner.clear_tag(), _marker: PhantomData }
    }

    /// Splits the pointer into the pointer with a cleared tag and the tag.
    pub fn split_tag(self) -> (r: (Self, usize))
        ensures
            r.0.addr() == self.addr(),
            r.0.tag() == 0,
            r.0.word() == self.addr(),
            r.1 == self.tag(),
    {
        let (inner, tag) = self.inner.split_tag();
        (Protected { inner, _marker: PhantomData }, tag)
    }

    /// Returns the pointer with its tag replaced by `tag`, of which only the
    /// `N` low bits are kept.
    pub fn set_tag(self, tag: usize) -> (p: Self)
        ensures
            p.addr() == self.addr(),
            p.tag() == tag & mark_mask(N),
            p.word() == compose_word(self.addr(), tag, N),
    {
        Protected { inner: self.inner.set_tag(tag), _marker: PhantomData }
    }

    /// Returns the pointer with its tag replaced by `func` applied to the
    /// current tag.
    pub fn update_tag(self, func: impl FnOnce(usize) -> usize) -> (p: Self)
        requires
            call_requires(func, (self.tag(),)),
        ensures
            p.addr() == self.addr(),
            exists|t: usize| call_ensures(func, (self.tag(),), t) && p.tag() == t & mark_mask(N),
    {
        let tag = func(self.inner.decompose_tag());
        self.set_tag(tag)
    }

    /// Returns the tag of the pointer.
    pub fn decompose_tag(self) -> (tag: usize)
        ensures
            tag == self.tag(),
    {
        self.inner.decompose_tag()
    }

    /// Returns the address and the tag of the pointer.
    pub fn decompose(self) -> (r: (usize, usize))
        ensures
            r == (self.addr(), self.tag()),
    {
        self.inner.decompose()
    }

    /// Converts the pointer into a non-nullable [`Shared`] reference, or
    /// returns the tag of the `null` pointer.
    pub fn shared(self) -> (r: Maybe<Shared<'g, T, R, N>>)
        ensures
            match r {
                Maybe::NotNull(s) => self.addr() != 0 && s.word() == self.word(),
                Maybe::Null(tag) => self.addr() == 0 && tag == self.tag(),
            },
    {
        match MarkedNonNull::new(self.inner) {
            Ok(inner) => Maybe::NotNull(Shared::from_marked_non_null(inner)),
            Err(Null(tag)) => Maybe::Null(tag),
        }
    }

    /// Converts the pointer, which must not be `null`, into a [`Shared`]
    /// reference.
    pub fn shared_unchecked(self) -> (s: Shared<'g, T, R, N>)
        requires
            self.addr() != 0,
        ensures
            s.word() == self.word(),
    {
        Shared::from_marked_non_null(MarkedNonNull::new_unchecked(self.inner))
    }
}

} // verus!
