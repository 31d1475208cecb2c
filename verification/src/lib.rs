//! Abstractions for concurrent memory reclamation: marked pointer types
//! that are bound to a reclamation mechanism, an atomic marked pointer and
//! the traits that reclamation mechanisms implement.

use vstd::prelude::*;

pub mod atomic;
pub mod erased;
pub mod fused;
pub mod guarded;
pub mod leak;
pub mod marked;
pub mod record;
pub mod retired;
pub mod traits;

mod imp;

use core::marker::PhantomData;

use crate::marked::{MarkedNonNull, MarkedPtr};

verus! {

// *************************************************************************************************
// Maybe
// *************************************************************************************************

/// An [`Option`]-like wrapper for non-nullable marked pointer or
/// reference types that can also represent marked `null` pointers.
#[derive(Copy, Clone, Debug, Hash, Ord, PartialOrd, Eq, PartialEq)]
pub enum Maybe<P> {
    NotNull(P),
    Null(usize),
}

// *************************************************************************************************
// Owned (impl in imp/owned.rs)
// *************************************************************************************************

/// An owning marked pointer to a heap allocated record, which is bound to its
/// associated reclamation mechanism `R`.
///
/// Unlike a plain pointer, the word always holds a non-null address.
#[derive(Debug, Eq, Ord, PartialEq, PartialOrd)]
pub struct Owned<T, R, const N: usize> {
    inner: MarkedNonNull<N>,
    _marker: PhantomData<(T, R)>,
}

// *************************************************************************************************
// Protected (impl in imp/protected.rs)
// *************************************************************************************************

/// A nullable shared pointer to a protected value that allows storing an
/// additional pointer tag.
#[derive(Debug, Eq, Ord, PartialEq, PartialOrd)]
pub struct Protected<'g, T, R, const N: usize> {
    inner: MarkedPtr<N>,
    _marker: PhantomData<(Option<&'g T>, R)>,
}

// *************************************************************************************************
// Shared (impl in imp/shared.rs)
// *************************************************************************************************

/// A local shared reference to a protected value that allows storing an
/// additional pointer tag.
///
/// Like regular shared references (`&'g T`) they can be trivially copied and
/// can not be `null`.
#[derive(Debug, Eq, Ord, PartialEq, PartialOrd)]
pub struct Shared<'g, T, R, const N: usize> {
    inner: MarkedNonNull<N>,
    _marker: PhantomData<(&'g T, R)>,
}

// *************************************************************************************************
// Unlinked (impl in imp/unlinked.rs)
// *************************************************************************************************

/// A reference to a value that has been removed from its previous location as
/// the result of a swap or compare-exchange operation on an atomic pointer.
#[derive(Debug, Eq, Ord, PartialEq, PartialOrd)]
pub struct Unlinked<T, R, const N: usize> {
    inner: MarkedNonNull<N>,
    _marker: PhantomData<(T, R)>,
}

// *************************************************************************************************
// Unprotected (impl in imp/unprotected.rs)
// *************************************************************************************************

/// A marked pointer to a value loaded from an atomic pointer that is not
/// protected from reclamation.
#[derive(Debug, Eq, Ord, PartialEq, PartialOrd)]
pub struct Unprotected<T, R, const N: usize> {
    inner: MarkedPtr<N>,
    _marker: PhantomData<(T, R)>,
}

// *************************************************************************************************
// NotEqual
// *************************************************************************************************

/// A type for indicating that a `load_if_equal` operation failed due to the
/// actual value not matching the expected one.
#[derive(Debug, Default, Copy, Clone, Hash, Eq, Ord, PartialEq, PartialOrd)]
pub struct NotEqual;

} // verus!
