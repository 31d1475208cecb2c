//! The traits that memory reclamation mechanisms implement.

mod imp;

use core::sync::atomic::Ordering;

use vstd::prelude::*;

use crate::atomic::{is_load_ordering, Atomic};
use crate::fused::{FusedProtected, FusedProtectedRef};
use crate::marked::{addr_of, compose_word, tag_of, MarkedNonNull, MarkedPtr};
use crate::{NotEqual, Protected};

verus! {

// *************************************************************************************************
// ReclaimBase (trait)
// *************************************************************************************************

/// A trait implementing the basic functionality of a memory reclamation scheme.
pub trait ReclaimBase: Sized {
    /// The header type that is allocated alongside every [`Owned`][crate::Owned].
    type Header;
    /// The type that can be retired and reclaimed by this reclamation scheme.
    type Retired;

    /// The address of the data of the retired record at address `retired`.
    spec fn data_ptr_spec(retired: usize) -> usize;

    /// The address of the header of the retired record at address `retired`.
    spec fn header_ptr_spec(retired: usize) -> usize;

    /// Returns the address of the data of the retired record at `retired`.
    fn as_data_ptr(retired: usize) -> (data: usize)
        ensures
            data == Self::data_ptr_spec(retired),
    ;

    /// Returns the address of the header of the retired record at `retired`.
    fn as_header_ptr(retired: usize) -> (header: usize)
        ensures
            header == Self::header_ptr_spec(retired),
    ;
}

// *************************************************************************************************
// Reclaim (trait)
// *************************************************************************************************

/// An extension for the [`ReclaimBase`] trait, which implements retiring
/// memory records of the type `T`.
pub trait Reclaim<T>: ReclaimBase {
    /// Whether `retired` is the retired record for the record at `ptr`.
    spec fn retire_spec(ptr: usize, retired: usize) -> bool;

    /// Retires the memory record at the (non-null) address `ptr` and returns
    /// the (non-null) address of the retired record.
    fn retire(ptr: usize) -> (retired: usize)
        requires
            ptr != 0,
        ensures
            retired != 0,
            Self::retire_spec(ptr, retired),
    ;
}

// *************************************************************************************************
// Protect (trait)
// *************************************************************************************************

/// A trait for guard types associated with a specific [`Reclaim`] mechanism,
/// which protect loaded values from reclamation.
pub trait Protect<T>: Clone + Sized {
    /// The associated reclamation mechanism.
    type Reclaim: Reclaim<T>;

    /// Whether the guard protects every value loaded while it exists (as the
    /// guards implementing [`ProtectRegion`] do), rather than only the value
    /// it protected last.
    spec fn protects_region() -> bool;

    /// Whether the guard currently provides no protection that could be
    /// released.
    spec fn is_released(&self) -> bool;

    /// The guard that results from releasing any protection provided by this
    /// guard.
    spec fn released(&self) -> Self;

    /// Releases any protection that may be provided by the guard.
    ///
    /// This has no effect for guards that protect a whole region.
    fn release(&mut self)
        ensures
            *final(self) == old(self).released(),
            final(self).is_released(),
            Self::protects_region() ==> *final(self) == *old(self),
    ;

    /// Loads and protects the value currently stored in `atomic`.
    fn protect<'g, const N: usize>(
        &'g mut self,
        atomic: &Atomic<T, Self::Reclaim, N>,
        order: Ordering,
    ) -> Protected<'g, T, Self::Reclaim, N>
        requires
            is_load_ordering(order),
    ;

    /// Loads and protects the value currently stored in `atomic`, if it equals
    /// `expected`.
    fn protect_if_equal<'g, const N: usize>(
        &'g mut self,
        atomic: &Atomic<T, Self::Reclaim, N>,
        expected: MarkedPtr<N>,
        order: Ordering,
    ) -> (r: Result<Protected<'g, T, Self::Reclaim, N>, NotEqual>)
        requires
            is_load_ordering(order),
        ensures
            r matches Ok(p) ==> p.word() == expected@,
    ;
}

// *************************************************************************************************
// ProtectExt (trait)
// *************************************************************************************************

/// An extension for [`Protect`] for fusing guards with the pointers they
/// protect.
pub trait ProtectExt<T>: Protect<T> {
    /// Protects the value in `atomic` and fuses the result with the guard.
    fn protect_fused<const N: usize>(
        self,
        atomic: &Atomic<T, Self::Reclaim, N>,
        order: Ordering,
    ) -> FusedProtected<T, Self, N>
        requires
            is_load_ordering(order),
    ;

    /// Protects the value in `atomic` and fuses the result with the guard, if
    /// it equals `expected`, otherwise the guard is returned.
    fn protect_fused_if_equal<const N: usize>(
        self,
        atomic: &Atomic<T, Self::Reclaim, N>,
        expected: MarkedPtr<N>,
        order: Ordering,
    ) -> (r: Result<FusedProtected<T, Self, N>, (Self, NotEqual)>)
        requires
            is_load_ordering(order),
        ensures
            r matches Ok(f) ==> f.word() == expected@,
    ;

    /// Protects the value in `atomic` and fuses the result with the borrowed
    /// guard.
    fn protect_fused_ref<const N: usize>(
        &mut self,
        atomic: &Atomic<T, Self::Reclaim, N>,
        order: Ordering,
    ) -> FusedProtectedRef<'_, T, Self, N>
        requires
            is_load_ordering(order),
    ;

    /// Protects the value in `atomic` and fuses the result with the borrowed
    /// guard, if it equals `expected`.
    fn protect_fused_ref_if_equal<const N: usize>(
        &mut self,
        atomic: &Atomic<T, Self::Reclaim, N>,
        expected: MarkedPtr<N>,
        order: Ordering,
    ) -> (r: Result<FusedProtectedRef<'_, T, Self, N>, NotEqual>)
        requires
            is_load_ordering(order),
        ensures
            r matches Ok(f) ==> f.word() == expected@,
    ;
}

impl<T, G: Protect<T>> ProtectExt<T> for G {
    fn protect_fused<const N: usize>(
        self,
        atomic: &Atomic<T, Self::Reclaim, N>,
        order: Ordering,
    ) -> FusedProtected<T, Self, N> {
        let mut guard = self;
        let protected = guard.protect(atomic, order).into_marked_ptr();
        FusedProtected::new(guard, protected)
    }

    fn protect_fused_if_equal<const N: usize>(
        self,
        atomic: &Atomic<T, Self::Reclaim, N>,
        expected: MarkedPtr<N>,
        order: Ordering,
    ) -> (r: Result<FusedProtected<T, Self, N>, (Self, NotEqual)>) {
        let mut guard = self;
        let protected = guard.protect(atomic, order).into_marked_ptr();
        FusedProtected::fuse_if_equal(guard, protected, expected)
    }

    fn protect_fused_ref<const N: usize>(
        &mut self,
        atomic: &Atomic<T, Self::Reclaim, N>,
        order: Ordering,
    ) -> FusedProtectedRef<'_, T, Self, N> {
        let protected = self.protect(atomic, order).into_marked_ptr();
        FusedProtectedRef::new(self, protected)
    }

    fn protect_fused_ref_if_equal<const N: usize>(
        &mut self,
        atomic: &Atomic<T, Self::Reclaim, N>,
        expected: MarkedPtr<N>,
        order: Ordering,
    ) -> (r: Result<FusedProtectedRef<'_, T, Self, N>, NotEqual>) {
        let protected = self.protect(atomic, order).into_marked_ptr();
        FusedProtectedRef::fuse_ref_if_equal(self, protected, expected)
    }
}

// *************************************************************************************************
// SharedPointer (trait)
// *************************************************************************************************

/// A trait for the (possibly nullable) marked pointer types of this crate and
/// for options of them, which abstracts over their marked pointer words.
pub trait SharedPointer<const N: usize>: Sized {
    /// The non-nullable pointer type (or the type itself).
    type Pointer;

    /// The marked pointer word that the value stands for.
    spec fn marked_word(&self) -> usize;

    /// The marked pointer word of the (non-nullable) pointer `ptr`.
    spec fn pointer_word(ptr: &Self::Pointer) -> usize;

    /// Whether the type can represent `null` pointers.
    spec fn is_nullable() -> bool;

    /// Wraps the pointer `ptr`.
    fn with(ptr: Self::Pointer) -> (p: Self)
        ensures
            p.marked_word() == Self::pointer_word(&ptr),
    ;

    /// Wraps the pointer `ptr` with its tag replaced by `tag`.
    fn compose(ptr: Self::Pointer, tag: usize) -> (p: Self)
        ensures
            addr_of(p.marked_word(), N) == addr_of(Self::pointer_word(&ptr), N),
            Self::pointer_word(&ptr) != 0 ==> p.marked_word() == compose_word(
                addr_of(Self::pointer_word(&ptr), N),
                tag,
                N,
            ),
    ;

    /// Converts the raw marked pointer `marked_ptr`, which must not be `null`
    /// for non-nullable types; the address is kept, and so is the whole word
    /// of a non-`null` pointer.
    fn from_marked_ptr(marked_ptr: MarkedPtr<N>) -> (p: Self)
        requires
            Self::is_nullable() || addr_of(marked_ptr@, N) != 0,
        ensures
            addr_of(p.marked_word(), N) == addr_of(marked_ptr@, N),
            addr_of(marked_ptr@, N) != 0 ==> p.marked_word() == marked_ptr@,
    ;

    /// Converts the non-nullable marked pointer `marked_ptr`.
    fn from_marked_non_null(marked_ptr: MarkedNonNull<N>) -> (p: Self)
        ensures
            p.marked_word() == marked_ptr@,
    ;

    /// Returns the raw marked pointer.
    fn as_marked_ptr(&self) -> (p: MarkedPtr<N>)
        ensures
            p@ == self.marked_word(),
    ;

    /// Returns the raw marked pointer, consuming `self`.
    fn into_marked_ptr(self) -> (p: MarkedPtr<N>)
        ensures
            p@ == self.marked_word(),
    ;

    /// Returns the pointer with a cleared tag.
    fn clear_tag(self) -> (p: Self)
        ensures
            p.marked_word() == addr_of(self.marked_word(), N),
    ;

    /// Returns the pointer with its tag replaced by `tag`; the address is
    /// kept, and a pointer of a non-nullable type, or one that is not the
    /// plain `null` word, gets exactly the tag `tag`.
    fn set_tag(self, tag: usize) -> (p: Self)
        ensures
            addr_of(p.marked_word(), N) == addr_of(self.marked_word(), N),
            !Self::is_nullable() || self.marked_word() != 0 ==> p.marked_word() == compose_word(
                addr_of(self.marked_word(), N),
                tag,
                N,
            ),
    ;

    /// Splits the pointer into the pointer with a cleared tag and the tag,
    /// which is that of the pointer, if the type is non-nullable or the
    /// address is not `null`.
    fn decompose(self) -> (r: (Self, usize))
        ensures
            r.0.marked_word() == addr_of(self.marked_word(), N),
            !Self::is_nullable() || addr_of(self.marked_word(), N) != 0 ==> r.1 == tag_of(
                self.marked_word(),
                N,
            ),
    ;
}

// *************************************************************************************************
// NonNullable (trait)
// *************************************************************************************************

/// A marker trait for the pointer types that are never `null`, which are the
/// pointers that (marked) options of pointers hold.
pub trait NonNullable<const N: usize>: SharedPointer<N> {
    /// A pointer of this type is never `null`.
    proof fn lemma_non_nullable()
        ensures
            !Self::is_nullable(),
    ;
}

// *************************************************************************************************
// ProtectRegion (trait)
// *************************************************************************************************

/// A marker trait for guards that protect all values loaded while they exist
/// (as opposed to only the most recently protected value).
pub trait ProtectRegion<T>: Protect<T> {
    /// A guard of this kind protects a whole region.
    proof fn lemma_protects_region()
        ensures
            Self::protects_region(),
    ;
}

} // verus!
