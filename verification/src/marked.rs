//! Marked (tagged) pointer words.
//!
//! A marked pointer is a single machine word that holds the address of a
//! value, whose `N` lowest bits are known to be zero due to alignment, and a
//! tag value stored in exactly these `N` low bits.

use vstd::prelude::*;

verus! {

/// The mask selecting the `n` low (tag) bits of a pointer word.
pub open spec fn mark_mask(n: usize) -> usize {
    if n >= usize::BITS {
        !0usize
    } else {
        ((1usize << n) - 1) as usize
    }
}

/// The address part of the marked word `w` with `n` tag bits.
pub open spec fn addr_of(w: usize, n: usize) -> usize {
    w & !mark_mask(n)
}

/// The tag part of the marked word `w` with `n` tag bits.
pub open spec fn tag_of(w: usize, n: usize) -> usize {
    w & mark_mask(n)
}

/// The word that holds the (aligned) address `addr` and the tag `tag`, of
/// which only the `n` low bits are kept.
pub open spec fn compose_word(addr: usize, tag: usize, n: usize) -> usize {
    addr | (tag & mark_mask(n))
}

/// Whether `addr` has its `n` low bits cleared, i.e., can hold an `n` bit tag.
pub open spec fn is_aligned_addr(addr: usize, n: usize) -> bool {
    addr & mark_mask(n) == 0
}

/// Bit level facts about splitting a word by an arbitrary mask.
pub proof fn lemma_mask_split(w: usize, m: usize)
    ensures
        (w & !m) | (w & m) == w,
        (w & !m) & m == 0,
        (w & m) & m == w & m,
        (w & !m) & !m == w & !m,
        (w & m) <= m,
        w & !m == 0 ==> w & m == w,
{
    assert((w & !m) | (w & m) == w) by (bit_vector);
    assert((w & !m) & m == 0) by (bit_vector);
    assert((w & m) & m == w & m) by (bit_vector);
    assert((w & !m) & !m == w & !m) by (bit_vector);
    assert((w & m) <= m) by (bit_vector);
    assert(w & !m == 0 ==> w & m == w) by (bit_vector);
}

/// Bit level facts about composing an address and a tag by an arbitrary mask.
pub proof fn lemma_mask_compose(a: usize, t: usize, m: usize)
    requires
        a & m == 0,
    ensures
        (a | (t & m)) & !m == a,
        (a | (t & m)) & m == t & m,
        (a | (t & m)) == 0 <==> (a == 0 && t & m == 0),
{
    assert((a | (t & m)) & !m == a) by (bit_vector)
        requires
            a & m == 0,
    ;
    assert((a | (t & m)) & m == t & m) by (bit_vector)
        requires
            a & m == 0,
    ;
    assert((a | (t & m)) == 0 <==> (a == 0 && t & m == 0)) by (bit_vector);
}

/// Decomposing a composed word gives back the aligned address and the tag
/// truncated to the available bits.
pub proof fn lemma_decompose_compose(addr: usize, tag: usize, n: usize)
    requires
        is_aligned_addr(addr, n),
    ensures
        addr_of(compose_word(addr, tag, n), n) == addr,
        tag_of(compose_word(addr, tag, n), n) == tag & mark_mask(n),
        tag <= mark_mask(n) ==> tag_of(compose_word(addr, tag, n), n) == tag,
{
    lemma_mask_compose(addr, tag, mark_mask(n));
    let m = mark_mask(n);
    assert(tag <= m ==> tag & m == tag) by {
        if tag <= m {
            lemma_tag_fits(tag, n);
        }
    }
}

/// A tag that is not larger than the mask is left unchanged by the mask.
pub proof fn lemma_tag_fits(tag: usize, n: usize)
    requires
        tag <= mark_mask(n),
    ensures
        tag & mark_mask(n) == tag,
{
    if n >= usize::BITS {
        assert(tag & !0usize == tag) by (bit_vector);
    } else {
        let m = mark_mask(n);
        assert(m == ((1usize << n) - 1) as usize);
        assert(tag <= ((1usize << n) - 1) as usize ==> tag & (((1usize << n) - 1) as usize) == tag)
            by (bit_vector)
            requires
                n < usize::BITS,
        ;
    }
}

/// Composing the two parts of a word gives back the word.
pub proof fn lemma_compose_decompose(w: usize, n: usize)
    ensures
        is_aligned_addr(addr_of(w, n), n),
        compose_word(addr_of(w, n), tag_of(w, n), n) == w,
        tag_of(w, n) <= mark_mask(n),
{
    lemma_mask_split(w, mark_mask(n));
}

/// Replacing the tag of a pointer twice is the same as replacing it once by
/// the second tag; the address is never changed.
pub proof fn lemma_set_tag_twice(w: usize, t1: usize, t2: usize, n: usize)
    ensures
        compose_word(addr_of(compose_word(addr_of(w, n), t1, n), n), t2, n) == compose_word(
            addr_of(w, n),
            t2,
            n,
        ),
        addr_of(compose_word(addr_of(w, n), t1, n), n) == addr_of(w, n),
{
    lemma_compose_decompose(w, n);
    lemma_decompose_compose(addr_of(w, n), t1, n);
}

/// Clearing the tag of a pointer is the same as replacing it by the zero tag.
pub proof fn lemma_clear_tag_is_zero_tag(w: usize, n: usize)
    ensures
        compose_word(addr_of(w, n), 0, n) == addr_of(w, n),
        tag_of(addr_of(w, n), n) == 0,
{
    let m = mark_mask(n);
    assert((w & !m) | (0usize & m) == w & !m) by (bit_vector);
    assert((w & !m) & m == 0) by (bit_vector);
}

/// The `null` address can hold any tag.
pub proof fn lemma_zero_word_aligned(n: usize)
    ensures
        is_aligned_addr(0, n),
{
    let m = mark_mask(n);
    assert(0usize & m == 0) by (bit_vector);
}

/// The mask of `n` tag bits, as a run time value.
pub fn mark_mask_of(n: usize) -> (m: usize)
    ensures
        m == mark_mask(n),
{
    if n >= usize::BITS as usize {
        !0usize
    } else {
        assert(1usize << n >= 1usize) by (bit_vector)
            requires
                n < usize::BITS,
        ;
        (1usize << n) - 1
    }
}

// *************************************************************************************************
// Null
// *************************************************************************************************

/// The error of a conversion of a `null` marked pointer into a non-nullable
/// one, carrying the tag of the `null` pointer.
#[derive(Clone, Copy, Debug, Default, Hash, PartialEq, Eq, PartialOrd, Ord)]
pub struct Null(pub usize);

// *************************************************************************************************
// MarkedPtr
// *************************************************************************************************

/// A raw, nullable marked pointer word with `N` tag bits.
#[derive(Clone, Copy, Debug, Hash, PartialEq, Eq, PartialOrd, Ord)]
pub struct MarkedPtr<const N: usize> {
    bits: usize,
}

impl<const N: usize> View for MarkedPtr<N> {
    type V = usize;

    closed spec fn view(&self) -> usize {
        self.bits
    }
}

impl<const N: usize> MarkedPtr<N> {
    /// The address part of the pointer.
    pub open spec fn addr(self) -> usize {
        addr_of(self@, N)
    }

    /// The tag part of the pointer.
    pub open spec fn tag(self) -> usize {
        tag_of(self@, N)
    }

    /// Whether the address part of the pointer is `null`.
    pub open spec fn is_null_spec(self) -> bool {
        self.addr() == 0
    }

    /// Creates a marked pointer from its raw word.
    pub fn from_usize(val: usize) -> (p: Self)
        ensures
            p@ == val,
    {
        MarkedPtr { bits: val }
    }

    /// Returns the raw word of the marked pointer.
    pub fn into_usize(self) -> (val: usize)
        ensures
            val == self@,
    {
        self.bits
    }

    /// Creates a new `null` pointer with a zero tag.
    pub fn null() -> (p: Self)
        ensures
            p@ == 0,
            p.addr() == 0,
            p.tag() == 0,
    {
        let m = mark_mask_of(N);
        assert(0usize & !m == 0 && 0usize & m == 0) by (bit_vector);
        MarkedPtr { bits: 0 }
    }

    /// Composes an aligned address and a tag into a marked pointer.
    ///
    /// Only the `N` low bits of `tag` are kept.
    pub fn compose(addr: usize, tag: usize) -> (p: Self)
        requires
            is_aligned_addr(addr, N),
        ensures
            p@ == compose_word(addr, tag, N),
            p.addr() == addr,
            p.tag() == tag & mark_mask(N),
    {
        let m = mark_mask_of(N);
        proof {
            lemma_decompose_compose(addr, tag, N);
        }
        MarkedPtr { bits: addr | (tag & m) }
    }

    /// Decomposes the marked pointer into its address and its tag.
    pub fn decompose(self) -> (r: (usize, usize))
        ensures
            r == (self.addr(), self.tag()),
    {
        let m = mark_mask_of(N);
        (self.bits & !m, self.bits & m)
    }

    /// Returns the address part of the marked pointer.
    pub fn decompose_ptr(self) -> (addr: usize)
        ensures
            addr == self.addr(),
    {
        let m = mark_mask_of(N);
        self.bits & !m
    }

    /// Returns the tag part of the marked pointer.
    pub fn decompose_tag(self) -> (tag: usize)
        ensures
            tag == self.tag(),
            tag <= mark_mask(N),
    {
        let m = mark_mask_of(N);
        proof {
            lemma_mask_split(self.bits, m);
        }
        self.bits & m
    }

    /// Returns the marked pointer with a cleared (zero) tag.
    pub fn clear_tag(self) -> (p: Self)
        ensures
            p.addr() == self.addr(),
            p.tag() == 0,
            p@ == self.addr(),
    {
        let m = mark_mask_of(N);
        proof {
            lemma_mask_split(self.bits, m);
        }
        MarkedPtr { bits: self.bits & !m }
    }

    /// Splits the marked pointer into the pointer with a cleared tag and the
    /// tag itself.
    pub fn split_tag(self) -> (r: (Self, usize))
        ensures
            r.0.addr() == self.addr(),
            r.0.tag() == 0,
            r.0@ == self.addr(),
            r.1 == self.tag(),
    {
        (self.clear_tag(), self.decompose_tag())
    }

    /// Returns the marked pointer with the same address and the tag replaced by
    /// `tag` (of which only the `N` low bits are kept).
    pub fn set_tag(self, tag: usize) -> (p: Self)
        ensures
            p.addr() == self.addr(),
            p.tag() == tag & mark_mask(N),
            p@ == compose_word(self.addr(), tag, N),
    {
        let addr = self.decompose_ptr();
        proof {
            lemma_compose_decompose(self.bits, N);
        }
        Self::compose(addr, tag)
    }

    /// Returns `true` if the address part of the marked pointer is `null`.
    pub fn is_null(self) -> (b: bool)
        ensures
            b == self.is_null_spec(),
    {
        self.decompose_ptr() == 0
    }
}

// *************************************************************************************************
// MarkedNonNull
// *************************************************************************************************

/// A non-nullable marked pointer word with `N` tag bits.
#[derive(Clone, Copy, Debug, Hash, PartialEq, Eq, PartialOrd, Ord)]
pub struct MarkedNonNull<const N: usize> {
    bits: usize,
}

impl<const N: usize> View for MarkedNonNull<N> {
    type V = usize;

    closed spec fn view(&self) -> usize {
        self.bits
    }
}

impl<const N: usize> MarkedNonNull<N> {
    #[verifier::type_invariant]
    spec fn non_null(self) -> bool {
        addr_of(self.bits, N) != 0
    }

    /// The address part of the pointer.
    pub open spec fn addr(self) -> usize {
        addr_of(self@, N)
    }

    /// The tag part of the pointer.
    pub open spec fn tag(self) -> usize {
        tag_of(self@, N)
    }

    /// Converts a marked pointer into a non-nullable one, if its address part
    /// is not `null`, and otherwise returns the tag of the `null` pointer.
    pub fn new(ptr: MarkedPtr<N>) -> (r: Result<Self, Null>)
        ensures
            match r {
                Ok(p) => !ptr.is_null_spec() && p@ == ptr@,
                Err(Null(tag)) => ptr.is_null_spec() && tag == ptr.tag(),
            },
    {
        if ptr.is_null() {
            Err(Null(ptr.decompose_tag()))
        } else {
            Ok(MarkedNonNull { bits: ptr.bits })
        }
    }

    /// Converts a marked pointer whose address part is known not to be `null`.
    pub fn new_unchecked(ptr: MarkedPtr<N>) -> (p: Self)
        requires
            !ptr.is_null_spec(),
        ensures
            p@ == ptr@,
    {
        MarkedNonNull { bits: ptr.bits }
    }

    /// Composes a non-null aligned address and a tag into a non-nullable
    /// marked pointer.
    pub fn compose_unchecked(addr: usize, tag: usize) -> (p: Self)
        requires
            addr != 0,
            is_aligned_addr(addr, N),
        ensures
            p@ == compose_word(addr, tag, N),
            p.addr() == addr,
            p.tag() == tag & mark_mask(N),
    {
        let ptr = MarkedPtr::<N>::compose(addr, tag);
        MarkedNonNull { bits: ptr.bits }
    }

    /// Returns the nullable marked pointer with the same word.
    pub fn into_marked_ptr(self) -> (p: MarkedPtr<N>)
        ensures
            p@ == self@,
            !p.is_null_spec(),
    {
        proof {
            use_type_invariant(&self);
        }
        MarkedPtr { bits: self.bits }
    }

    /// Decomposes the pointer into its (non-null) address and its tag.
    pub fn decompose(self) -> (r: (usize, usize))
        ensures
            r == (self.addr(), self.tag()),
            r.0 != 0,
    {
        proof {
            use_type_invariant(&self);
        }
        self.into_marked_ptr().decompose()
    }

    /// Returns the (non-null) address part of the pointer.
    pub fn decompose_ptr(self) -> (addr: usize)
        ensures
            addr == self.addr(),
            addr != 0,
    {
        proof {
            use_type_invariant(&self);
        }
        self.into_marked_ptr().decompose_ptr()
    }

    /// Returns the tag part of the pointer.
    pub fn decompose_tag(self) -> (tag: usize)
        ensures
            tag == self.tag(),
            tag <= mark_mask(N),
    {
        self.into_marked_ptr().decompose_tag()
    }

    /// Returns the pointer with a cleared tag.
    pub fn clear_tag(self) -> (p: Self)
        ensures
            p.addr() == self.addr(),
            p.tag() == 0,
            p@ == self.addr(),
    {
        proof {
            use_type_invariant(&self);
        }
        let cleared = self.into_marked_ptr().clear_tag();
        MarkedNonNull { bits: cleared.bits }
    }

    /// Splits the pointer into the pointer with a cleared tag and the tag.
    pub fn split_tag(self) -> (r: (Self, usize))
        ensures
            r.0.addr() == self.addr(),
            r.0.tag() == 0,
            r.0@ == self.addr(),
            r.1 == self.tag(),
    {
        (self.clear_tag(), self.decompose_tag())
    }

    /// Returns the pointer with the same address and the tag replaced by
    /// `tag` (of which only the `N` low bits are kept).
    pub fn set_tag(self, tag: usize) -> (p: Self)
        ensures
            p.addr() == self.addr(),
            p.tag() == tag & mark_mask(N),
            p@ == compose_word(self.addr(), tag, N),
    {
        proof {
            use_type_invariant(&self);
        }
        let ptr = self.into_marked_ptr().set_tag(tag);
        MarkedNonNull { bits: ptr.bits }
    }
}

} // verus!
