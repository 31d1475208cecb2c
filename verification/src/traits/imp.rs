//! Implementations of [`SharedPointer`] for the marked pointer types and for
//! (marked) options of them.

use vstd::prelude::*;

use crate::marked::{addr_of, compose_word, mark_mask, tag_of, MarkedNonNull, MarkedPtr};
use crate::traits::{NonNullable, SharedPointer};
use crate::{Maybe, Owned, Shared, Unprotected};

verus! {

/// The `null` word has a `null` address and a zero tag.
proof fn lemma_zero_word(n: usize)
    ensures
        addr_of(0, n) == 0,
        tag_of(0, n) == 0,
{
    let m = mark_mask(n);
    assert(0usize & !m == 0 && 0usize & m == 0) by (bit_vector);
}

/// The word of a `null` pointer with tag `tag` has a `null` address.
proof fn lemma_null_word(tag: usize, n: usize)
    ensures
        addr_of(compose_word(0, tag, n), n) == 0,
        tag_of(compose_word(0, tag, n), n) == tag & mark_mask(n),
{
    let m = mark_mask(n);
    assert((0usize | (tag & m)) & !m == 0) by (bit_vector);
    assert((0usize | (tag & m)) & m == tag & m) by (bit_vector);
}

/********** impl for Owned ************************************************************************/

impl<T, R, const N: usize> SharedPointer<N> for Owned<T, R, N> {
    type Pointer = Self;

    open spec fn marked_word(&self) -> usize {
        self.word()
    }

    open spec fn pointer_word(ptr: &Self) -> usize {
        ptr.word()
    }

    open spec fn is_nullable() -> bool {
        false
    }

    fn with(ptr: Self) -> (p: Self) {
        ptr
    }

    fn compose(ptr: Self, tag: usize) -> (p: Self) {
        Owned::set_tag(ptr, tag)
    }

    fn from_marked_ptr(marked_ptr: MarkedPtr<N>) -> (p: Self) {
        Owned::from_marked_ptr(marked_ptr)
    }

    fn from_marked_non_null(marked_ptr: MarkedNonNull<N>) -> (p: Self) {
        Owned::from_marked_non_null(marked_ptr)
    }

    fn as_marked_ptr(&self) -> (p: MarkedPtr<N>) {
        Owned::as_marked_ptr(self)
    }

    fn into_marked_ptr(self) -> (p: MarkedPtr<N>) {
        Owned::into_marked_ptr(self)
    }

    fn clear_tag(self) -> (p: Self) {
        Owned::clear_tag(self)
    }

    fn set_tag(self, tag: usize) -> (p: Self) {
        Owned::set_tag(self, tag)
    }

    fn decompose(self) -> (r: (Self, usize)) {
        let tag = Owned::decompose_tag(&self);
        (Owned::clear_tag(self), tag)
    }
}

/********** impl for Shared ***********************************************************************/

impl<'g, T, R, const N: usize> SharedPointer<N> for Shared<'g, T, R, N> {
    type Pointer = Self;

    open spec fn marked_word(&self) -> usize {
        self.word()
    }

    open spec fn pointer_word(ptr: &Self) -> usize {
        ptr.word()
    }

    open spec fn is_nullable() -> bool {
        false
    }

    fn with(ptr: Self) -> (p: Self) {
        ptr
    }

    fn compose(ptr: Self, tag: usize) -> (p: Self) {
        Shared::set_tag(ptr, tag)
    }

    fn from_marked_ptr(marked_ptr: MarkedPtr<N>) -> (p: Self) {
        Shared::from_marked_ptr(marked_ptr)
    }

    fn from_marked_non_null(marked_ptr: MarkedNonNull<N>) -> (p: Self) {
        Shared::from_marked_non_null(marked_ptr)
    }

    fn as_marked_ptr(&self) -> (p: MarkedPtr<N>) {
        Shared::into_marked_ptr(*self)
    }

    fn into_marked_ptr(self) -> (p: MarkedPtr<N>) {
        Shared::into_marked_ptr(self)
    }

    fn clear_tag(self) -> (p: Self) {
        Shared::clear_tag(self)
    }

    fn set_tag(self, tag: usize) -> (p: Self) {
        Shared::set_tag(self, tag)
    }

    fn decompose(self) -> (r: (Self, usize)) {
        Shared::split_tag(self)
    }
}

/********** impl for Unprotected ******************************************************************/

impl<T, R, const N: usize> SharedPointer<N> for Unprotected<T, R, N> {
    type Pointer = Self;

    open spec fn marked_word(&self) -> usize {
        self.word()
    }

    open spec fn pointer_word(ptr: &Self) -> usize {
        ptr.word()
    }

    open spec fn is_nullable() -> bool {
        true
    }

    fn with(ptr: Self) -> (p: Self) {
        ptr
    }

    fn compose(ptr: Self, tag: usize) -> (p: Self) {
        Unprotected::set_tag(ptr, tag)
    }

    fn from_marked_ptr(marked_ptr: MarkedPtr<N>) -> (p: Self) {
        Unprotected::from_marked_ptr(marked_ptr)
    }

    fn from_marked_non_null(marked_ptr: MarkedNonNull<N>) -> (p: Self) {
        Unprotected::from_marked_non_null(marked_ptr)
    }

    fn as_marked_ptr(&self) -> (p: MarkedPtr<N>) {
        Unprotected::into_marked_ptr(*self)
    }

    fn into_marked_ptr(self) -> (p: MarkedPtr<N>) {
        Unprotected::into_marked_ptr(self)
    }

    fn clear_tag(self) -> (p: Self) {
        Unprotected::clear_tag(self)
    }

    fn set_tag(self, tag: usize) -> (p: Self) {
        Unprotected::set_tag(self, tag)
    }

    fn decompose(self) -> (r: (Self, usize)) {
        Unprotected::split_tag(self)
    }
}

/********** impl NonNullable ********************************************************************/

impl<T, R, const N: usize> NonNullable<N> for Owned<T, R, N> {
    proof fn lemma_non_nullable() {
    }
}

impl<'g, T, R, const N: usize> NonNullable<N> for Shared<'g, T, R, N> {
    proof fn lemma_non_nullable() {
    }
}

/********** impl for Option ***********************************************************************/

impl<P: NonNullable<N> + SharedPointer<N, Pointer = P>, const N: usize> SharedPointer<N> for Option<P> {
    type Pointer = P;

    open spec fn marked_word(&self) -> usize {
        match self {
            Some(ptr) => ptr.marked_word(),
            None => 0,
        }
    }

    open spec fn pointer_word(ptr: &P) -> usize {
        ptr.marked_word()
    }

    open spec fn is_nullable() -> bool {
        true
    }

    fn with(ptr: P) -> (p: Self) {
        Some(ptr)
    }

    fn compose(ptr: P, tag: usize) -> (p: Self)
        ensures
            p.marked_word() == compose_word(addr_of(ptr.marked_word(), N), tag, N),
    {
        proof {
            P::lemma_non_nullable();
        }
        Some(ptr.set_tag(tag))
    }

    fn from_marked_ptr(marked_ptr: MarkedPtr<N>) -> (p: Self)
        ensures
            p is Some <==> addr_of(marked_ptr@, N) != 0,
    {
        match MarkedNonNull::new(marked_ptr) {
            Ok(ptr) => Some(P::from_marked_non_null(ptr)),
            Err(_) => {
                proof {
                    lemma_zero_word(N);
                }
                None
            },
        }
    }

    fn from_marked_non_null(marked_ptr: MarkedNonNull<N>) -> (p: Self) {
        Some(P::from_marked_non_null(marked_ptr))
    }

    fn as_marked_ptr(&self) -> (p: MarkedPtr<N>) {
        match self {
            Some(ptr) => ptr.as_marked_ptr(),
            None => MarkedPtr::null(),
        }
    }

    fn into_marked_ptr(self) -> (p: MarkedPtr<N>) {
        match self {
            Some(ptr) => ptr.into_marked_ptr(),
            None => MarkedPtr::null(),
        }
    }

    fn clear_tag(self) -> (p: Self)
        ensures
            p is Some <==> self is Some,
    {
        match self {
            Some(ptr) => Some(ptr.clear_tag()),
            None => {
                proof {
                    lemma_zero_word(N);
                }
                None
            },
        }
    }

    fn set_tag(self, tag: usize) -> (p: Self)
        ensures
            p is Some <==> self is Some,
            self matches Some(q) ==> p.marked_word() == compose_word(
                addr_of(q.marked_word(), N),
                tag,
                N,
            ),
    {
        proof {
            P::lemma_non_nullable();
        }
        match self {
            Some(ptr) => Some(ptr.set_tag(tag)),
            None => None,
        }
    }

    fn decompose(self) -> (r: (Self, usize))
        ensures
            r.0 is Some <==> self is Some,
            self is None ==> r.1 == 0,
            self matches Some(q) ==> r.1 == tag_of(q.marked_word(), N),
    {
        proof {
            P::lemma_non_nullable();
        }
        match self {
            Some(ptr) => {
                let (ptr, tag) = ptr.decompose();
                (Some(ptr), tag)
            },
            None => {
                proof {
                    lemma_zero_word(N);
                }
                (None, 0)
            },
        }
    }
}

/********** impl for Maybe ************************************************************************/

impl<P: NonNullable<N> + SharedPointer<N, Pointer = P>, const N: usize> SharedPointer<N> for Maybe<P> {
    type Pointer = P;

    open spec fn marked_word(&self) -> usize {
        match self {
            Maybe::NotNull(ptr) => ptr.marked_word(),
            Maybe::Null(tag) => compose_word(0, *tag, N),
        }
    }

    open spec fn pointer_word(ptr: &P) -> usize {
        ptr.marked_word()
    }

    open spec fn is_nullable() -> bool {
        true
    }

    fn with(ptr: P) -> (p: Self) {
        Maybe::NotNull(ptr)
    }

    fn compose(ptr: P, tag: usize) -> (p: Self)
        ensures
            p.marked_word() == compose_word(addr_of(ptr.marked_word(), N), tag, N),
    {
        proof {
            P::lemma_non_nullable();
        }
        Maybe::NotNull(ptr.set_tag(tag))
    }

    fn from_marked_ptr(marked_ptr: MarkedPtr<N>) -> (p: Self)
        ensures
            p is NotNull <==> addr_of(marked_ptr@, N) != 0,
            p.marked_word() == marked_ptr@,
            addr_of(marked_ptr@, N) == 0 ==> p == Maybe::<P>::Null(tag_of(marked_ptr@, N)),
    {
        match MarkedNonNull::new(marked_ptr) {
            Ok(ptr) => Maybe::NotNull(P::from_marked_non_null(ptr)),
            Err(null) => {
                proof {
                    crate::marked::lemma_compose_decompose(marked_ptr@, N);
                }
                Maybe::Null(null.0)
            },
        }
    }

    fn from_marked_non_null(marked_ptr: MarkedNonNull<N>) -> (p: Self) {
        Maybe::NotNull(P::from_marked_non_null(marked_ptr))
    }

    fn as_marked_ptr(&self) -> (p: MarkedPtr<N>) {
        match self {
            Maybe::NotNull(ptr) => ptr.as_marked_ptr(),
            Maybe::Null(tag) => {
                proof {
                    crate::marked::lemma_zero_word_aligned(N);
                }
                MarkedPtr::compose(0, *tag)
            },
        }
    }

    fn into_marked_ptr(self) -> (p: MarkedPtr<N>) {
        match self {
            Maybe::NotNull(ptr) => ptr.into_marked_ptr(),
            Maybe::Null(tag) => {
                proof {
                    crate::marked::lemma_zero_word_aligned(N);
                }
                MarkedPtr::compose(0, tag)
            },
        }
    }

    fn clear_tag(self) -> (p: Self)
        ensures
            p is NotNull <==> self is NotNull,
            self is Null ==> p == Maybe::<P>::Null(0),
    {
        match self {
            Maybe::NotNull(ptr) => {
                Maybe::NotNull(ptr.clear_tag())
            },
            Maybe::Null(tag) => {
                proof {
                    lemma_null_word(tag, N);
                    lemma_null_word(0, N);
                    let m = mark_mask(N);
                    assert(0usize | (0usize & m) == 0) by (bit_vector);
                }
                Maybe::Null(0)
            },
        }
    }

    fn set_tag(self, tag: usize) -> (p: Self)
        ensures
            p is NotNull <==> self is NotNull,
            self is Null ==> p == Maybe::<P>::Null(tag),
            self matches Maybe::NotNull(q) ==> p.marked_word() == compose_word(
                addr_of(q.marked_word(), N),
                tag,
                N,
            ),
    {
        proof {
            P::lemma_non_nullable();
        }
        match self {
            Maybe::NotNull(ptr) => Maybe::NotNull(ptr.set_tag(tag)),
            Maybe::Null(old_tag) => {
                proof {
                    lemma_null_word(old_tag, N);
                    lemma_null_word(tag, N);
                }
                Maybe::Null(tag)
            },
        }
    }

    fn decompose(self) -> (r: (Self, usize))
        ensures
            r.0 is NotNull <==> self is NotNull,
            self is Null ==> r == (Maybe::<P>::Null(0), 0usize),
            self matches Maybe::NotNull(q) ==> r.1 == tag_of(q.marked_word(), N),
    {
        proof {
            P::lemma_non_nullable();
        }
        match self {
            Maybe::NotNull(ptr) => {
                let (ptr, tag) = ptr.decompose();
                (Maybe::NotNull(ptr), tag)
            },
            Maybe::Null(tag) => {
                proof {
                    lemma_null_word(tag, N);
                    lemma_null_word(0, N);
                    let m = mark_mask(N);
                    assert(0usize | (0usize & m) == 0) by (bit_vector);
                }
                (Maybe::Null(0), 0)
            },
        }
    }
}

} // verus!
