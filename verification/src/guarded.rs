//! A guard fused with the non-null value it protects.

use core::marker::PhantomData;
use core::sync::atomic::Ordering;

use vstd::prelude::*;

use crate::atomic::{is_load_ordering, Atomic};
use crate::marked::{addr_of, MarkedNonNull, MarkedPtr};
use crate::traits::Protect;
use crate::Shared;

verus! {

/// A guard fused with the non-null value loaded from an atomic pointer that
/// it protects.
pub struct Guarded<T, G, const N: usize> {
    guard: G,
    protected: MarkedNonNull<N>,
    _marker: PhantomData<T>,
}

impl<T, G: Protect<T>, const N: usize> Guarded<T, G, N> {
    /// The protected marked pointer word.
    pub closed spec fn word(self) -> usize {
        self.protected@
    }

    /// The guard.
    pub closed spec fn guard_spec(self) -> G {
        self.guard
    }

    /// Fuses `guard` with the value `loaded` that it has protected, if it is
    /// not `null`, and otherwise returns the guard.
    pub fn fuse_loaded(guard: G, loaded: MarkedPtr<N>) -> (r: Result<Self, G>)
        ensures
            match r {
                Ok(g) => addr_of(loaded@, N) != 0 && g.word() == loaded@ && g.guard_spec()
                    == guard,
                Err(g) => addr_of(loaded@, N) == 0 && g == guard,
            },
    {
        match MarkedNonNull::new(loaded) {
            Ok(protected) => Ok(Guarded { guard, protected, _marker: PhantomData }),
            Err(_) => Err(guard),
        }
    }

    /// Protects the value currently stored in `atomic` with `guard` and fuses
    /// both, unless the value is `null`, in which case the guard is returned.
    pub fn try_fuse(guard: G, atomic: &Atomic<T, G::Reclaim, N>, order: Ordering) -> (r: Result<
        Self,
        G,
    >)
        requires
            is_load_ordering(order),
        ensures
            r matches Ok(g) ==> addr_of(g.word(), N) != 0,
    {
        let mut guard = guard;
        let loaded = guard.protect(atomic, order).into_marked_ptr();
        Self::fuse_loaded(guard, loaded)
    }

    /// Protects the value currently stored in `atomic` with `guard` and fuses
    /// both, if the value equals `expected` and is not `null`; otherwise the
    /// guard is returned.
    pub fn try_fuse_if_equal(
        guard: G,
        atomic: &Atomic<T, G::Reclaim, N>,
        expected: MarkedPtr<N>,
        order: Ordering,
    ) -> (r: Result<Self, G>)
        requires
            is_load_ordering(order),
        ensures
            r matches Ok(g) ==> g.word() == expected@ && addr_of(expected@, N) != 0,
            addr_of(expected@, N) == 0 ==> r is Err,
    {
        let mut guard = guard;
        let res = guard.protect_if_equal(atomic, expected, order);
        match res {
            Ok(protected) => {
                let loaded = protected.into_marked_ptr();
                Self::fuse_loaded(guard, loaded)
            },
            Err(_) => Err(guard),
        }
    }

    /// Returns a [`Shared`] reference borrowed from the [`Guarded`].
    pub fn shared(&self) -> (s: Shared<'_, T, G::Reclaim, N>)
        ensures
            s.word() == self.word(),
    {
        Shared::from_marked_non_null(self.protected)
    }

    /// Converts the [`Guarded`] into the internally stored guard.
    ///
    /// Unless the guard protects a whole region, it is released before being
    /// returned, so that it no longer protects the fused value.
    pub fn into_guard(self) -> (g: G)
        ensures
            g == self.guard_spec().released(),
            g.is_released(),
            G::protects_region() ==> g == self.guard_spec(),
    {
        let mut guard = self.guard;
        guard.release();
        guard
    }
}

} // verus!
