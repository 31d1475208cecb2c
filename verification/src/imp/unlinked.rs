use core::marker::PhantomData;

use vstd::prelude::*;

use crate::marked::{addr_of, compose_word, mark_mask, tag_of, MarkedNonNull, MarkedPtr};
use crate::retired::Retired;
use crate::traits::Reclaim;
use crate::Unlinked;

verus! {

/********** impl inherent *************************************************************************/

impl<T, R, const N: usize> Unlinked<T, R, N> {
    /// The raw marked pointer word.
    pub closed spec fn word(self) -> usize {
        self.inner@
    }

    /// The address part of the pointer, which is never `null`.
    pub open spec fn addr(self) -> usize {
        addr_of(self.word(), N)
    }

    /// The tag part of the pointer.
    pub open spec fn tag(self) -> usize {
        tag_of(self.word(), N)
    }

    /// Creates an [`Unlinked`] from a raw marked pointer that is not `null`.
    pub fn from_marked_ptr(ptr: MarkedPtr<N>) -> (u: Self)
        requires
            !ptr.is_null_spec(),
        ensures
            u.word() == ptr@,
    {
        Unlinked { inner: MarkedNonNull::new_unchecked(ptr), _marker: PhantomData }
    }

    /// Creates an [`Unlinked`] from a non-nullable marked pointer.
    pub fn from_marked_non_null(ptr: MarkedNonNull<N>) -> (u: Self)
        ensures
            u.word() == ptr@,
    {
        Unlinked { inner: ptr, _marker: PhantomData }
    }

    /// Returns the raw marked pointer.
    pub fn as_marked_ptr(&self) -> (p: MarkedPtr<N>)
        ensures
            p@ == self.word(),
            p.addr() != 0,
    {
        self.inner.into_marked_ptr()
    }

    /// Returns the raw marked pointer, consuming `self`.
    pub fn into_marked_ptr(self) -> (p: MarkedPtr<N>)
        ensures
            p@ == self.word(),
            p.addr() != 0,
    {
        self.inner.into_marked_ptr()
    }

    /// Returns the pointer with a cleared tag.
    pub fn clear_tag(self) -> (u: Self)
        ensures
            u.addr() == self.addr(),
            u.tag() == 0,
            u.word() == self.addr(),
    {
        Unlinked { inner: self.inner.clear_tag(), _marker: PhantomData }
    }

    /// Splits the pointer into the pointer with a cleared tag and the tag.
    pub fn split_tag(self) -> (r: (Self, usize))
        ensures
            r.0.addr() == self.addr(),
            r.0.tag() == 0,
            r.0.word() == self.addr(),
            r.1 == self.tag(),
    {
        let (inner, tag) = self.inner.split_tag();
        (Unlinked { inner, _marker: PhantomData }, tag)
    }

    /// Returns the pointer with its tag replaced by `tag`, of which only the
    /// `N` low bits are kept.
    pub fn set_tag(self, tag: usize) -> (u: Self)
        ensures
            u.addr() == self.addr(),
            u.tag() == tag & mark_mask(N),
            u.word() == compose_word(self.addr(), tag, N),
    {
        Unlinked { inner: self.inner.set_tag(tag), _marker: PhantomData }
    }

    /// Returns the pointer with its tag replaced by `func` applied to the
    /// current tag.
    pub fn update_tag(self, func: impl FnOnce(usize) -> usize) -> (u: Self)
        requires
            call_requires(func, (self.tag(),)),
        ensures
            u.addr() == self.addr(),
            exists|t: usize| call_ensures(func, (self.tag(),), t) && u.tag() == t & mark_mask(N),
    {
        let tag = func(self.inner.decompose_tag());
        self.set_tag(tag)
    }

    /// Returns the tag of the pointer.
    pub fn decompose_tag(self) -> (tag: usize)
        ensures
            tag == self.tag(),
    {
        self.inner.decompose_tag()
    }

    /// Returns the (non-null) address and the tag of the pointer.
    pub fn decompose(&self) -> (r: (usize, usize))
        ensures
            r == (self.addr(), self.tag()),
            r.0 != 0,
    {
        self.inner.decompose()
    }

    /// Casts the pointer into a pointer to a different type.
    pub fn cast<U>(self) -> (u: Unlinked<U, R, N>)
        ensures
            u.word() == self.word(),
    {
        Unlinked { inner: self.inner, _marker: PhantomData }
    }
}

impl<T, R: Reclaim<T>, const N: usize> Unlinked<T, R, N> {
    /// Hands the unlinked record over to the reclamation mechanism `R`, which
    /// retires the record at the (untagged) address of `self`.
    pub fn into_retired(self) -> (r: Retired<R>)
        ensures
            R::retire_spec(self.addr(), r.ptr()),
    {
        let addr = self.inner.decompose_ptr();
        let retired = R::retire(addr);
        Retired::new_unchecked(retired)
    }
}

} // verus!
