use core::marker::PhantomData;

use vstd::prelude::*;

use crate::marked::{addr_of, compose_word, mark_mask, tag_of, MarkedNonNull, MarkedPtr};
use crate::Shared;

verus! {

/********** impl Clone + Copy *********************************************************************/

impl<T, R, const N: usize> Clone for Shared<'_, T, R, N> {
    fn clone(&self) -> (r: Self)
        ensures
            r == *self,
    {
        Shared { inner: self.inner, _marker: PhantomData }
    }
}

impl<T, R, const N: usize> Copy for Shared<'_, T, R, N> {}

/********** impl inherent *************************************************************************/

impl<'g, T, R, const N: usize> Shared<'g, T, R, N> {
    /// The raw marked pointer word.
    pub closed spec fn word(self) -> usize {
        self.inner@
    }

    /// The address part of the reference, which is never `null`.
    pub open spec fn addr(self) -> usize {
        addr_of(self.word(), N)
    }

    /// The tag part of the reference.
    pub open spec fn tag(self) -> usize {
        tag_of(self.word(), N)
    }

    /// Casts the reference into a reference to a different type and with a
    /// different lifetime.
    pub fn cast<'a, U>(self) -> (s: Shared<'a, U, R, N>)
        ensures
            s.word() == self.word(),
    {
        Shared { inner: self.inner, _marker: PhantomData }
    }

    /// Creates a [`Shared`] from a raw marked pointer that is not `null`.
    pub fn from_marked_ptr(ptr: MarkedPtr<N>) -> (s: Self)
        requires
            !ptr.is_null_spec(),
        ensures
            s.word() == ptr@,
    {
        Shared { inner: MarkedNonNull::new_unchecked(ptr), _marker: PhantomData }
    }

    /// Creates a [`Shared`] from a non-nullable marked pointer.
    pub fn from_marked_non_null(ptr: MarkedNonNull<N>) -> (s: Self)
        ensures
            s.word() == ptr@,
    {
        Shared { inner: ptr, _marker: PhantomData }
    }

    /// Returns the raw marked pointer.
    pub fn into_marked_ptr(self) -> (p: MarkedPtr<N>)
        ensures
            p@ == self.word(),
            p.addr() != 0,
    {
        self.inner.into_marked_ptr()
    }

    /// Returns the non-nullable marked pointer.
    pub fn as_marked_non_null(self) -> (p: MarkedNonNull<N>)
        ensures
            p@ == self.word(),
    {
        self.inner
    }

    /// Returns the reference with a cleared tag.
    pub fn clear_tag(self) -> (s: Self)
        ensures
            s.addr() == self.addr(),
            s.tag() == 0,
            s.word() == self.addr(),
    {
        Shared { inner: self.inner.clear_tag(), _marker: PhantomData }
    }

    /// Splits the reference into the reference with a cleared tag and the tag.
    pub fn split_tag(self) -> (r: (Self, usize))
        ensures
            r.0.addr() == self.addr(),
            r.0.tag() == 0,
            r.0.word() == self.addr(),
            r.1 == self.tag(),
    {
        let (inner, tag) = self.inner.split_tag();
        (Shared { inner, _marker: PhantomData }, tag)
    }

    /// Returns the reference with its tag replaced by `tag`, of which only the
    /// `N` low bits are kept.
    pub fn set_tag(self, tag: usize) -> (s: Self)
        ensures
            s.addr() == self.addr(),
            s.tag() == tag & mark_mask(N),
            s.word() == compose_word(self.addr(), tag, N),
    {
        Shared { inner: self.inner.set_tag(tag), _marker: PhantomData }
    }

    /// Returns the reference with its tag replaced by `func` applied to the
    /// current tag.
    pub fn update_tag(self, func: impl FnOnce(usize) -> usize) -> (s: Self)
        requires
            call_requires(func, (self.tag(),)),
        ensures
            s.addr() == self.addr(),
            exists|t: usize| call_ensures(func, (self.tag(),), t) && s.tag() == t & mark_mask(N),
    {
        let tag = func(self.inner.decompose_tag());
        self.set_tag(tag)
    }

    /// Returns the tag of the reference.
    pub fn decompose_tag(self) -> (tag: usize)
        ensures
            tag == self.tag(),
    {
        self.inner.decompose_tag()
    }

    /// Returns the (non-null) address and the tag of the reference.
    pub fn decompose(self) -> (r: (usize, usize))
        ensures
            r == (self.addr(), self.tag()),
            r.0 != 0,
    {
        self.inner.decompose()
    }
}

} // verus!
