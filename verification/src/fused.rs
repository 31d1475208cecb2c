//! Wrapper types for *fusing* guard instances and protected pointers or
//! references.

use core::marker::PhantomData;

use vstd::prelude::*;

use crate::marked::{addr_of, tag_of, MarkedNonNull, MarkedPtr, Null};
use crate::traits::Protect;
use crate::{NotEqual, Protected, Shared};

verus! {

// *************************************************************************************************
// FusedProtected
// *************************************************************************************************

/// An owned guard fused with a (nullable) [`Protected`] pointer.
pub struct FusedProtected<T, G, const N: usize> {
    /// The owned guard.
    pub(crate) guard: G,
    /// The protected pointer.
    pub(crate) protected: MarkedPtr<N>,
    _marker: PhantomData<T>,
}

impl<T, G: Protect<T>, const N: usize> FusedProtected<T, G, N> {
    /// The protected marked pointer word.
    pub closed spec fn word(self) -> usize {
        self.protected@
    }

    /// The guard.
    pub closed spec fn guard_spec(self) -> G {
        self.guard
    }

    pub(crate) fn new(guard: G, protected: MarkedPtr<N>) -> (f: Self)
        ensures
            f.word() == protected@,
            f.guard_spec() == guard,
    {
        FusedProtected { guard, protected, _marker: PhantomData }
    }

    /// Fuses `guard` with the value `protected` that it has protected, if it
    /// equals `expected`, and otherwise returns the guard.
    pub fn fuse_if_equal(guard: G, protected: MarkedPtr<N>, expected: MarkedPtr<N>) -> (r: Result<
        Self,
        (G, NotEqual),
    >)
        ensures
            match r {
                Ok(f) => protected@ == expected@ && f.word() == protected@ && f.guard_spec()
                    == guard,
                Err((g, _)) => protected@ != expected@ && g == guard,
            },
    {
        if protected.into_usize() == expected.into_usize() {
            Ok(Self::new(guard, protected))
        } else {
            Err((guard, NotEqual))
        }
    }

    /// Creates a new [`FusedProtected`] from `guard` with a `null` pointer.
    pub fn null(guard: G) -> (f: Self)
        ensures
            f.word() == 0,
            f.guard_spec() == guard,
    {
        Self::new(guard, MarkedPtr::null())
    }

    /// Returns the inner [`Protected`] pointer.
    pub fn as_protected(&self) -> (p: Protected<'_, T, G::Reclaim, N>)
        ensures
            p.word() == self.word(),
    {
        Protected::from_marked_ptr(self.protected)
    }

    /// Attempts to convert `self` into a [`FusedShared`].
    ///
    /// Fails, if `self` holds a `null` pointer, in which case `self` itself
    /// and a [`Null`] carrying the tag of the pointer are returned.
    pub fn into_fused_shared(self) -> (r: Result<FusedShared<T, G, N>, (Self, Null)>)
        ensures
            match r {
                Ok(s) => addr_of(self.word(), N) != 0 && s.word() == self.word()
                    && s.guard_spec() == self.guard_spec(),
                Err((f, Null(tag))) => addr_of(self.word(), N) == 0 && f == self
                    && tag == tag_of(self.word(), N),
            },
    {
        match MarkedNonNull::new(self.protected) {
            Ok(shared) => Ok(FusedShared { guard: self.guard, shared, _marker: PhantomData }),
            Err(null) => Err((self, null)),
        }
    }

    /// Consumes `self` and returns the contained guard, forfeiting its
    /// currently protected value.
    pub fn into_guard(self) -> (g: G)
        ensures
            g == self.guard_spec(),
    {
        self.guard
    }
}

// *************************************************************************************************
// FusedProtectedRef
// *************************************************************************************************

/// A borrowed guard fused with a (nullable) [`Protected`] pointer.
pub struct FusedProtectedRef<'g, T, G, const N: usize> {
    pub(crate) guard: &'g mut G,
    pub(crate) protected: MarkedPtr<N>,
    _marker: PhantomData<T>,
}

impl<'g, T, G: Protect<T>, const N: usize> FusedProtectedRef<'g, T, G, N> {
    /// The protected marked pointer word.
    pub closed spec fn word(self) -> usize {
        self.protected@
    }

    /// The current value of the borrowed guard.
    pub closed spec fn guard_spec(self) -> G {
        *self.guard
    }

    pub(crate) fn new(guard: &'g mut G, protected: MarkedPtr<N>) -> (f: Self)
        ensures
            f.word() == protected@,
            f.guard_spec() == *old(guard),
    {
        FusedProtectedRef { guard, protected, _marker: PhantomData }
    }

    /// Fuses the borrowed `guard` with the value `protected` that it has
    /// protected, if it equals `expected`.
    pub fn fuse_ref_if_equal(
        guard: &'g mut G,
        protected: MarkedPtr<N>,
        expected: MarkedPtr<N>,
    ) -> (r: Result<Self, NotEqual>)
        ensures
            match r {
                Ok(f) => protected@ == expected@ && f.word() == protected@ && f.guard_spec()
                    == *old(guard),
                Err(_) => protected@ != expected@,
            },
    {
        if protected.into_usize() == expected.into_usize() {
            Ok(Self::new(guard, protected))
        } else {
            Err(NotEqual)
        }
    }

    /// Creates a new [`FusedProtectedRef`] from `guard` with a `null` pointer.
    pub fn null(guard: &'g mut G) -> (f: Self)
        ensures
            f.word() == 0,
            f.guard_spec() == *old(guard),
    {
        Self::new(guard, MarkedPtr::null())
    }

    /// Returns the inner [`Protected`] pointer.
    pub fn as_protected(&self) -> (p: Protected<'_, T, G::Reclaim, N>)
        ensures
            p.word() == self.word(),
    {
        Protected::from_marked_ptr(self.protected)
    }

    /// Attempts to convert `self` into a [`FusedSharedRef`].
    ///
    /// Fails, if `self` holds a `null` pointer, in which case `self` itself
    /// and a [`Null`] carrying the tag of the pointer are returned.
    pub fn into_fused_shared_ref(self) -> (r: Result<FusedSharedRef<'g, T, G, N>, (Self, Null)>)
        ensures
            match r {
                Ok(s) => addr_of(self.word(), N) != 0 && s.word() == self.word()
                    && s.guard_spec() == self.guard_spec(),
                Err((f, Null(tag))) => addr_of(self.word(), N) == 0 && f.word() == self.word()
                    && f.guard_spec() == self.guard_spec() && tag == tag_of(self.word(), N),
            },
    {
        match MarkedNonNull::new(self.protected) {
            Ok(shared) => Ok(FusedSharedRef { guard: self.guard, shared, _marker: PhantomData }),
            Err(null) => Err((self, null)),
        }
    }

    /// Consumes `self` and returns the borrowed guard.
    pub fn into_guard_ref(self) -> (g: &'g mut G)
        ensures
            *g == self.guard_spec(),
    {
        self.guard
    }
}

// *************************************************************************************************
// FusedShared
// *************************************************************************************************

/// An owned guard fused with a (non-nullable) [`Shared`] reference.
pub struct FusedShared<T, G, const N: usize> {
    pub(crate) guard: G,
    pub(crate) shared: MarkedNonNull<N>,
    _marker: PhantomData<T>,
}

impl<T, G: Protect<T>, const N: usize> FusedShared<T, G, N> {
    /// The protected marked pointer word.
    pub closed spec fn word(self) -> usize {
        self.shared@
    }

    /// The guard.
    pub closed spec fn guard_spec(self) -> G {
        self.guard
    }

    /// Adopts the reference protected by `other` by swapping `guard` with the
    /// guard of `other`: the returned fused reference keeps the protecting
    /// guard of `other` and `guard` is handed back.
    pub fn adopt(guard: G, other: FusedShared<T, G, N>) -> (r: (Self, G))
        ensures
            r.0.word() == other.word(),
            r.0.guard_spec() == other.guard_spec(),
            r.1 == guard,
    {
        let mut guard = guard;
        let mut other = other;
        core::mem::swap(&mut guard, &mut other.guard);
        (FusedShared { guard, shared: other.shared, _marker: PhantomData }, other.guard)
    }

    /// Returns the inner [`Shared`] reference.
    pub fn as_shared(&self) -> (s: Shared<'_, T, G::Reclaim, N>)
        ensures
            s.word() == self.word(),
    {
        Shared::from_marked_non_null(self.shared)
    }

    /// Swaps the guard of `self` with `guard`: the returned fused reference
    /// keeps the protecting guard and `guard` is handed back.
    pub fn transfer_to(self, guard: G) -> (r: (Self, G))
        ensures
            r.0.word() == self.word(),
            r.0.guard_spec() == self.guard_spec(),
            r.1 == guard,
    {
        let mut this = self;
        let mut guard = guard;
        core::mem::swap(&mut this.guard, &mut guard);
        (FusedShared { guard, shared: this.shared, _marker: PhantomData }, this.guard)
    }

    /// Swaps the guard of `self` with the one behind `guard`, which then
    /// protects the reference, and returns the borrowing fused reference and
    /// the guard previously behind `guard`.
    pub fn transfer_to_ref(self, guard: &mut G) -> (r: (FusedSharedRef<'_, T, G, N>, G))
        ensures
            r.0.word() == self.word(),
            r.0.guard_spec() == self.guard_spec(),
            r.1 == *old(guard),
    {
        let mut this = self;
        core::mem::swap(&mut this.guard, guard);
        (FusedSharedRef { guard, shared: this.shared, _marker: PhantomData }, this.guard)
    }

    /// Converts `self` into a (nullable) [`FusedProtected`].
    pub fn into_fused_protected(self) -> (f: FusedProtected<T, G, N>)
        ensures
            f.word() == self.word(),
            f.guard_spec() == self.guard_spec(),
    {
        FusedProtected::new(self.guard, self.shared.into_marked_ptr())
    }

    /// Consumes `self` and returns the contained guard.
    pub fn into_guard(self) -> (g: G)
        ensures
            g == self.guard_spec(),
    {
        self.guard
    }
}

// *************************************************************************************************
// FusedSharedRef
// *************************************************************************************************

/// A borrowed guard fused with a (non-nullable) [`Shared`] reference.
pub struct FusedSharedRef<'g, T, G, const N: usize> {
    pub(crate) guard: &'g mut G,
    pub(crate) shared: MarkedNonNull<N>,
    _marker: PhantomData<T>,
}

impl<'g, T, G: Protect<T>, const N: usize> FusedSharedRef<'g, T, G, N> {
    /// The protected marked pointer word.
    pub closed spec fn word(self) -> usize {
        self.shared@
    }

    /// The current value of the borrowed guard.
    pub closed spec fn guard_spec(self) -> G {
        *self.guard
    }

    /// Returns the inner [`Shared`] reference.
    pub fn as_shared(&self) -> (s: Shared<'_, T, G::Reclaim, N>)
        ensures
            s.word() == self.word(),
    {
        Shared::from_marked_non_null(self.shared)
    }

    /// Swaps the borrowed guard with `guard` and returns the owning fused
    /// reference, which holds the protecting guard.
    pub fn transfer_to(self, guard: G) -> (f: FusedShared<T, G, N>)
        ensures
            f.word() == self.word(),
            f.guard_spec() == self.guard_spec(),
    {
        let mut guard = guard;
        core::mem::swap(self.guard, &mut guard);
        FusedShared { guard, shared: self.shared, _marker: PhantomData }
    }

    /// Swaps the borrowed guard with the one behind `guard`, which then
    /// protects the reference.
    pub fn transfer_to_ref<'h>(self, guard: &'h mut G) -> (f: FusedSharedRef<'h, T, G, N>)
        ensures
            f.word() == self.word(),
            f.guard_spec() == self.guard_spec(),
    {
        core::mem::swap(self.guard, guard);
        FusedSharedRef { guard, shared: self.shared, _marker: PhantomData }
    }

    /// Converts `self` into a (nullable) [`FusedProtectedRef`].
    pub fn into_fused_protected_ref(self) -> (f: FusedProtectedRef<'g, T, G, N>)
        ensures
            f.word() == self.word(),
            f.guard_spec() == self.guard_spec(),
    {
        FusedProtectedRef::new(self.guard, self.shared.into_marked_ptr())
    }

    /// Consumes `self` and returns the [`Shared`] reference with the full
    /// lifetime of the borrowed guard.
    pub fn into_shared(self) -> (s: Shared<'g, T, G::Reclaim, N>)
        ensures
            s.word() == self.word(),
    {
        Shared::from_marked_non_null(self.shared)
    }

    /// Consumes `self` and returns the borrowed guard.
    pub fn into_guard_ref(self) -> (g: &'g mut G)
        ensures
            *g == self.guard_spec(),
    {
        self.guard
    }
}

} // verus!
