use core::marker::PhantomData;

use vstd::prelude::*;

use crate::atomic::Storable;
use crate::marked::{addr_of, compose_word, is_aligned_addr, mark_mask, tag_of, MarkedNonNull, MarkedPtr};
use crate::Owned;

verus! {

/********** impl inherent *************************************************************************/

impl<T, R, const N: usize> Owned<T, R, N> {
    /// The raw marked pointer word.
    pub closed spec fn word(self) -> usize {
        self.inner@
    }

    /// The address part of the pointer, which is never `null`.
    pub open spec fn addr(self) -> usize {
        addr_of(self.word(), N)
    }

    /// The tag part of the pointer.
    pub open spec fn tag(self) -> usize {
        tag_of(self.word(), N)
    }

    /// Takes ownership of the record at the (non-null, aligned) address
    /// `addr` and composes its pointer with the initial `tag`.
    pub fn from_record(addr: usize, tag: usize) -> (owned: Self)
        requires
            addr != 0,
            is_aligned_addr(addr, N),
        ensures
            owned.addr() == addr,
            owned.tag() == tag & mark_mask(N),
    {
        Owned { inner: MarkedNonNull::compose_unchecked(addr, tag), _marker: PhantomData }
    }

    /// Takes ownership of the record that the non-nullable `ptr` points at.
    pub fn from_marked_non_null(ptr: MarkedNonNull<N>) -> (owned: Self)
        ensures
            owned.word() == ptr@,
    {
        Owned { inner: ptr, _marker: PhantomData }
    }

    /// Takes ownership of the record that the non-`null` `ptr` points at.
    pub fn from_marked_ptr(ptr: MarkedPtr<N>) -> (owned: Self)
        requires
            !ptr.is_null_spec(),
        ensures
            owned.word() == ptr@,
    {
        Owned { inner: MarkedNonNull::new_unchecked(ptr), _marker: PhantomData }
    }

    /// Consumes the [`Owned`] and returns its raw marked pointer.
    pub fn into_marked_ptr(owned: Self) -> (p: MarkedPtr<N>)
        ensures
            p@ == owned.word(),
            p.addr() != 0,
    {
        owned.inner.into_marked_ptr()
    }

    /// Consumes the [`Owned`] and returns its non-nullable marked pointer.
    pub fn into_marked_non_null(owned: Self) -> (p: MarkedNonNull<N>)
        ensures
            p@ == owned.word(),
    {
        owned.inner
    }

    /// Returns the raw marked pointer of the [`Owned`].
    pub fn as_marked_ptr(owned: &Self) -> (p: MarkedPtr<N>)
        ensures
            p@ == owned.word(),
            p.addr() != 0,
    {
        owned.inner.into_marked_ptr()
    }

    /// Returns the non-nullable marked pointer of the [`Owned`].
    pub fn as_marked_non_null(owned: &Self) -> (p: MarkedNonNull<N>)
        ensures
            p@ == owned.word(),
    {
        owned.inner
    }

    /// Returns the [`Owned`] with a cleared tag.
    pub fn clear_tag(owned: Self) -> (o: Self)
        ensures
            o.addr() == owned.addr(),
            o.tag() == 0,
            o.word() == owned.addr(),
    {
        Owned { inner: owned.inner.clear_tag(), _marker: PhantomData }
    }

    /// Returns the [`Owned`] with its tag replaced by `tag`, of which only the
    /// `N` low bits are kept.
    pub fn set_tag(owned: Self, tag: usize) -> (o: Self)
        ensures
            o.addr() == owned.addr(),
            o.tag() == tag & mark_mask(N),
            o.word() == compose_word(owned.addr(), tag, N),
    {
        Owned { inner: owned.inner.set_tag(tag), _marker: PhantomData }
    }

    /// Returns the tag of the [`Owned`].
    pub fn decompose_tag(owned: &Self) -> (tag: usize)
        ensures
            tag == owned.tag(),
    {
        owned.inner.decompose_tag()
    }

    /// Returns the (non-null) address and the tag of the [`Owned`].
    pub fn decompose(owned: &Self) -> (r: (usize, usize))
        ensures
            r == (owned.addr(), owned.tag()),
            r.0 != 0,
    {
        owned.inner.decompose()
    }

    /// Leaks the [`Owned`], i.e., hands its record over to a [`Storable`]
    /// pointer without ever reclaiming it.
    pub fn leak(owned: Self) -> (s: Storable<T, R, N>)
        ensures
            s.word() == owned.word(),
    {
        Storable::new(owned.inner.into_marked_ptr())
    }

    /// Takes ownership of the record that a non-`null` [`Storable`] points
    /// at.
    pub fn from_storable(storable: Storable<T, R, N>) -> (owned: Self)
        requires
            storable.addr() != 0,
        ensures
            owned.word() == storable.word(),
    {
        Owned { inner: MarkedNonNull::new_unchecked(storable.into_marked_ptr()), _marker: PhantomData }
    }
}

} // verus!
