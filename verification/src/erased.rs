//! Support for type-erased reclamation mechanisms, which are able to retire
//! and reclaim records of any type.

use vstd::layout::{align_of, size_of};
use vstd::prelude::*;

use crate::record::{data_offset_spec, Record};
use crate::traits::ReclaimBase;

verus! {

// *************************************************************************************************
// DynReclaim (trait)
// *************************************************************************************************

/// An extension trait for [`ReclaimBase`] for type-erased mechanisms, which
/// store the information for reclaiming a record in the record's
/// [`DynHeader`].
///
/// The trait is implemented for every mechanism with the appropriate
/// associated types.
pub trait DynReclaim<H>: ReclaimBase<Header = DynHeader<H>, Retired = DynErased> {
    /// Returns the address of the record whose data of type `T` is at `ptr`:
    /// type-erased records are retired by the address of their header, to
    /// which the data address is then recorded.
    fn dyn_retire<T>(ptr: usize) -> (record: usize)
        requires
            data_offset_spec(size_of::<DynHeader<H>>() as int, align_of::<T>() as int) <= ptr,
        ensures
            record == ptr - data_offset_spec(
                size_of::<DynHeader<H>>() as int,
                align_of::<T>() as int,
            ),
    {
        broadcast use vstd::layout::align_nonzero;

        Record::<DynHeader<H>, T>::header_from_data(ptr, core::mem::align_of::<T>())
    }

    /// Returns the address of the record to reclaim for a retired type-erased
    /// record, from the data address `data_ptr` recorded in its header and
    /// the alignment `data_align` of the (dynamically typed) value there.
    fn dyn_record_from_data(data_ptr: usize, data_align: usize) -> (record: usize)
        requires
            data_align > 0,
            data_offset_spec(size_of::<DynHeader<H>>() as int, data_align as int) <= data_ptr,
        ensures
            record == data_ptr - data_offset_spec(
                size_of::<DynHeader<H>>() as int,
                data_align as int,
            ),
    {
        Record::<DynHeader<H>, DynErased>::record_from_data(data_ptr, data_align)
    }

    /// Returns the address of the header of a retired type-erased record,
    /// which is the address of the record itself.
    fn dyn_header_ptr(retired: usize) -> (header: usize)
        ensures
            header == retired,
    {
        retired
    }
}

impl<H, R: ReclaimBase<Header = DynHeader<H>, Retired = DynErased>> DynReclaim<H> for R {

}

// *************************************************************************************************
// DynErased
// *************************************************************************************************

/// An opaque type used for type-erased pointers to records storing (dynamic)
/// reclamation information as part of a header.
#[derive(Debug, Hash)]
pub struct DynErased(());

// *************************************************************************************************
// DynHeader
// *************************************************************************************************

/// A header wrapper for a type-erased record, which stores the address of the
/// record's data alongside the reclamation mechanism's own header.
#[derive(Copy, Clone, Debug)]
pub struct DynHeader<H> {
    /// The address of the record's data, recorded when the record is retired.
    pub data_ptr: usize,
    /// The header of the reclamation mechanism.
    pub header: H,
}

impl<H> DynHeader<H> {
    /// Wraps the given `header` in a [`DynHeader`] with a `null` data
    /// address.
    ///
    /// The resulting header is not yet fully initialized: the data address
    /// is recorded when the record is retired.
    pub fn new(header: H) -> (h: Self)
        ensures
            h.data_ptr == 0,
            h.header == header,
    {
        DynHeader { data_ptr: 0, header }
    }

    /// Returns the recorded address of the record's data.
    pub fn data_ptr(&self) -> (p: usize)
        ensures
            p == self.data_ptr,
    {
        self.data_ptr
    }

    /// Records the address of the record's data.
    pub fn set_data_ptr(&mut self, data: usize)
        ensures
            final(self).data_ptr == data,
            final(self).header == old(self).header,
    {
        self.data_ptr = data;
    }
}

} // verus!
