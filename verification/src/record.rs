//! The layout of the records that the reclamation mechanisms allocate: a
//! header followed by the record's data.

use vstd::arithmetic::div_mod::{
    lemma_add_mod_noop_right, lemma_mod_multiples_basic, lemma_mod_multiples_vanish,
    lemma_mod_pos_bound,
};
use vstd::arithmetic::power::{lemma_pow_adds, lemma_pow_strictly_increases_converse};
use vstd::arithmetic::power2::{is_pow2, is_pow2_equiv, is_pow2_exists, lemma_pow2, pow2};
use vstd::arithmetic::power::pow;
use vstd::layout::{align_of, size_of, unsigned_int_max_values};
use vstd::prelude::*;

verus! {

/// The offset of the data of a record from the start of the record, for a
/// header of `header_size` bytes and a data alignment of `data_align`: the
/// header size plus its wrapping negation modulo the alignment.
pub open spec fn data_offset_spec(header_size: int, data_align: int) -> int {
    let neg = if header_size == 0 {
        0
    } else {
        usize::MAX + 1 - header_size
    };
    header_size + neg % data_align
}

/// Every power of two that fits in a `usize` divides the size of the address
/// space.
proof fn lemma_pow2_divides_address_space(a: usize)
    requires
        is_pow2(a as int),
    ensures
        (usize::MAX + 1) % (a as int) == 0,
{
    broadcast use is_pow2_equiv;

    assert(is_pow2_exists(a as int));
    let i = choose|i: nat| pow(2, i) == a;
    vstd::arithmetic::power::lemma_pow_positive(2, i);
    unsigned_int_max_values();
    let bits = usize::BITS as nat;
    lemma_pow2(bits);
    assert(pow(2, i) < pow(2, bits));
    lemma_pow_strictly_increases_converse(2, i, bits);
    let rest = (bits - i) as nat;
    lemma_pow_adds(2, i, rest);
    assert(usize::MAX + 1 == pow(2, rest) * (a as int));
    lemma_mod_multiples_basic(pow(2, rest), a as int);
}

/// The data offset of a record rounds the header size up to the next
/// multiple of a power of two alignment: it is aligned, it leaves room for the
/// header and it adds less than one alignment of padding.
pub proof fn lemma_data_offset_rounds_up(header_size: usize, data_align: usize)
    requires
        is_pow2(data_align as int),
    ensures
        data_offset_spec(header_size as int, data_align as int) % (data_align as int) == 0,
        header_size <= data_offset_spec(header_size as int, data_align as int),
        data_offset_spec(header_size as int, data_align as int) < header_size + data_align,
{
    let s = header_size as int;
    let a = data_align as int;
    broadcast use is_pow2_equiv;

    assert(a > 0) by {
        assert(is_pow2_exists(a));
        let i = choose|i: nat| pow(2, i) == a;
        vstd::arithmetic::power::lemma_pow_positive(2, i);
    }
    if s == 0 {
        assert(0int % a == 0);
    } else {
        lemma_pow2_divides_address_space(data_align);
        let m = usize::MAX + 1;
        let k = m / a;
        assert(m == a * k) by {
            vstd::arithmetic::div_mod::lemma_fundamental_div_mod(m, a);
        }
        lemma_mod_multiples_vanish(k, -s, a);
        assert(m - s == a * k + (-s));
        lemma_add_mod_noop_right(s, -s, a);
        lemma_mod_pos_bound(m - s, a);
    }
}

// *************************************************************************************************
// Record
// *************************************************************************************************

/// A record: an instance of `T` preceded by an instance of the header type
/// `H` of the reclamation mechanism.
///
/// The header always precedes the data, at offset `0`; the data, which may be
/// of a dynamically sized type such as a trait object, is the last field.
pub struct Record<H, T: ?Sized> {
    /// The record's header.
    pub header: H,
    /// The wrapped record data itself.
    pub data: T,
}

impl<H, T: ?Sized> Record<H, T> {
    /// Returns the offset in bytes from the record to its `data` field for a
    /// given `data_align` of that field's type (of which the concrete type
    /// may not be known), matching the layout algorithm used for C-like
    /// structs.
    pub fn data_offset(data_align: usize) -> (offset: usize)
        requires
            data_align > 0,
            data_offset_spec(size_of::<H>() as int, data_align as int) <= usize::MAX,
        ensures
            offset == data_offset_spec(size_of::<H>() as int, data_align as int),
    {
        let offset: usize = core::mem::size_of::<H>();
        let neg: usize = 0usize.wrapping_sub(offset);
        offset + neg % data_align
    }

    /// Returns the address of the header of the record that contains the
    /// data at address `data`, whose value has the alignment `data_align`
    /// (the alignment of the concrete value, which for a trait object is
    /// that of the type behind it).
    pub fn header_from_data(data: usize, data_align: usize) -> (header: usize)
        requires
            data_align > 0,
            data_offset_spec(size_of::<H>() as int, data_align as int) <= data,
        ensures
            header == data - data_offset_spec(size_of::<H>() as int, data_align as int),
    {
        data - Self::data_offset(data_align)
    }

    /// Returns the address of the record that contains the data at address
    /// `data`, whose value has the alignment `data_align`; this is the
    /// address of the record's header.
    pub fn record_from_data(data: usize, data_align: usize) -> (record: usize)
        requires
            data_align > 0,
            data_offset_spec(size_of::<H>() as int, data_align as int) <= data,
        ensures
            record == data - data_offset_spec(size_of::<H>() as int, data_align as int),
    {
        Self::header_from_data(data, data_align)
    }
}

} // verus!
