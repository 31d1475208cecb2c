use core::cmp::Ordering;
use core::marker::PhantomData;

use vstd::prelude::*;

use crate::traits::ReclaimBase;

verus! {

/// A retired record, handed over to its reclamation mechanism `R` for
/// eventual reclamation.
pub struct Retired<R> {
    ptr: usize,
    _marker: PhantomData<R>,
}

impl<R> Retired<R> {
    #[verifier::type_invariant]
    spec fn non_null(self) -> bool {
        self.ptr != 0
    }

    /// The (non-null) address of the retired record.
    pub closed spec fn ptr(self) -> usize {
        self.ptr
    }

    pub(crate) fn new_unchecked(ptr: usize) -> (r: Self)
        requires
            ptr != 0,
        ensures
            r.ptr() == ptr,
    {
        Retired { ptr, _marker: PhantomData }
    }

    /// Returns the (non-null) address of the retired record.
    pub fn as_retired_ptr(&self) -> (p: usize)
        ensures
            p == self.ptr(),
            p != 0,
    {
        proof {
            use_type_invariant(self);
        }
        self.ptr
    }
}

impl<R: ReclaimBase> Retired<R> {
    /// Returns the address of the retired record's data.
    pub fn as_ptr(&self) -> (p: usize)
        ensures
            p == R::data_ptr_spec(self.ptr()),
    {
        R::as_data_ptr(self.ptr)
    }

    /// Returns the address of the retired record's header.
    pub fn header_ptr(&self) -> (p: usize)
        ensures
            p == R::header_ptr_spec(self.ptr()),
    {
        R::as_header_ptr(self.ptr)
    }
}

impl<R: ReclaimBase> PartialEq for Retired<R> {
    fn eq(&self, other: &Self) -> (r: bool) {
        self.as_ptr() == other.as_ptr()
    }
}

impl<R: ReclaimBase> vstd::std_specs::cmp::PartialEqSpecImpl for Retired<R> {
    open spec fn obeys_eq_spec() -> bool {
        true
    }

    open spec fn eq_spec(&self, other: &Self) -> bool {
        R::data_ptr_spec(self.ptr()) == R::data_ptr_spec(other.ptr())
    }
}

impl<R: ReclaimBase> PartialOrd for Retired<R> {
    fn partial_cmp(&self, other: &Self) -> (r: Option<Ordering>) {
        self.as_ptr().partial_cmp(&other.as_ptr())
    }
}

impl<R: ReclaimBase> vstd::std_specs::cmp::PartialOrdSpecImpl for Retired<R> {
    open spec fn obeys_partial_cmp_spec() -> bool {
        true
    }

    open spec fn partial_cmp_spec(&self, other: &Self) -> Option<Ordering> {
        let a = R::data_ptr_spec(self.ptr());
        let b = R::data_ptr_spec(other.ptr());
        if a < b {
            Some(Ordering::Less)
        } else if a > b {
            Some(Ordering::Greater)
        } else {
            Some(Ordering::Equal)
        }
    }
}

impl<R: ReclaimBase> Eq for Retired<R> {

}

} // verus!
