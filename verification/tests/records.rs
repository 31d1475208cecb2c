use std::mem;
use std::sync::atomic::{AtomicUsize, Ordering};

use reclaim::erased::DynHeader;
use reclaim::leak::{Leaking, Owned, Shared};
use reclaim::marked::{MarkedNonNull, MarkedPtr};
use reclaim::record::Record;
use reclaim::traits::SharedPointer;
use reclaim::Maybe;

#[test]
fn data_offsets() {
    assert_eq!(Record::<(), u64>::data_offset(8), 0);
    assert_eq!(Record::<u64, u8>::data_offset(1), 8);
    assert_eq!(Record::<u64, u8>::data_offset(16), 16);
    assert_eq!(Record::<[u8; 3], u32>::data_offset(4), 4);
    assert_eq!(Record::<[u8; 5], u32>::data_offset(8), 8);
    assert_eq!(Record::<[u8; 24], u32>::data_offset(16), 32);
}

#[test]
fn header_from_data() {
    assert_eq!(Record::<u64, u64>::header_from_data(0x1008, 8), 0x1000);
    assert_eq!(Record::<u32, u64>::header_from_data(0x1008, 8), 0x1000);
    assert_eq!(Record::<(), u64>::record_from_data(0x1008, 8), 0x1008);
    assert_eq!(Record::<u64, [u8]>::header_from_data(0x1008, 1), 0x1000);
    assert_eq!(Record::<u64, dyn TypeName>::record_from_data(0x1010, 16), 0x1000);
}

trait TypeName {
    fn kind_name(&self) -> &'static str;
}

struct DropCounting<'a>(&'a AtomicUsize);

impl Drop for DropCounting<'_> {
    fn drop(&mut self) {
        self.0.fetch_add(1, Ordering::Relaxed);
    }
}

impl TypeName for DropCounting<'_> {
    fn kind_name(&self) -> &'static str {
        "DropCounting"
    }
}

impl TypeName for [u8; 128] {
    fn kind_name(&self) -> &'static str {
        "[u8; 128]"
    }
}

/// The address that a reference points at.
fn address_of<T: ?Sized>(value: &T) -> usize {
    let text = format!("{:p}", value);
    let start = text.find("0x").unwrap() + 2;
    let digits: String = text[start..].chars().take_while(|c| c.is_ascii_hexdigit()).collect();
    usize::from_str_radix(&digits, 16).unwrap()
}

/// Checks that the record found from the address and alignment of the
/// (dynamically typed) data is the record itself, which starts with its
/// header.
fn check_record<'a>(record: &Record<usize, dyn TypeName + 'a>) {
    let data = address_of(&record.data);
    let align = mem::align_of_val(&record.data);
    let found = Record::<usize, dyn TypeName>::record_from_data(data, align);
    assert_eq!(found, address_of(record));
    assert_eq!(found, address_of(&record.header));
    assert_eq!(Record::<usize, dyn TypeName>::header_from_data(data, align), found);
}

#[test]
fn dyn_trait_record() {
    const MAGIC1: usize = 0xDEAD_BEEF;
    const MAGIC2: usize = 0xCAFE_BABE;

    let count = AtomicUsize::new(0);
    {
        let counting: Box<Record<usize, dyn TypeName + '_>> =
            Box::new(Record { header: MAGIC1, data: DropCounting(&count) });
        check_record(&counting);
        assert_eq!(counting.header, MAGIC1);
        assert_eq!(counting.data.kind_name(), "DropCounting");
        assert_eq!(mem::size_of_val(&counting.data), mem::size_of::<DropCounting<'_>>());

        let array: Box<Record<usize, dyn TypeName>> =
            Box::new(Record { header: MAGIC2, data: [0u8; 128] });
        check_record(&array);
        assert_eq!(array.header, MAGIC2);
        assert_eq!(array.data.kind_name(), "[u8; 128]");
        assert_eq!(mem::size_of_val(&array.data), mem::size_of::<[u8; 128]>());
    }

    assert_eq!(count.load(Ordering::Relaxed), 1);
}

#[test]
fn dyn_header() {
    let mut header = DynHeader::new(7u32);
    assert_eq!(header.data_ptr(), 0);
    assert_eq!(header.header, 7);
    assert_eq!(header.data_ptr, 0);
    header.set_data_ptr(0x100);
    assert_eq!(header.data_ptr, 0x100);
    assert_eq!(header.data_ptr(), 0x100);
    assert_eq!(header.header, 7);
}

#[test]
fn option_shared_pointer() {
    let none: Option<Shared<u64, 1>> = SharedPointer::from_marked_ptr(MarkedPtr::compose(0, 1));
    assert!(none.is_none());
    let some: Option<Owned<u64, 1>> = SharedPointer::from_marked_ptr(MarkedPtr::compose(0x80, 1));
    let (cleared, tag) = some.decompose();
    assert_eq!(tag, 1);
    assert_eq!(SharedPointer::into_marked_ptr(cleared).into_usize(), 0x80);
    let none: Option<Owned<u64, 1>> = None;
    let (none, tag) = none.decompose();
    assert!(none.is_none());
    assert_eq!(tag, 0);
    assert_eq!(SharedPointer::as_marked_ptr(&none).into_usize(), 0);
    let composed: Option<Shared<u64, 1>> =
        SharedPointer::compose(Shared::from_marked_ptr(MarkedPtr::compose(0x40, 0)), 1);
    assert_eq!(SharedPointer::into_marked_ptr(composed).into_usize(), 0x41);
}

#[test]
fn maybe_shared_pointer() {
    let null: Maybe<Shared<u64, 2>> = SharedPointer::from_marked_ptr(MarkedPtr::compose(0, 3));
    assert_eq!(null, Maybe::Null(3));
    let null_untagged: Maybe<Shared<u64, 2>> = SharedPointer::from_marked_ptr(MarkedPtr::null());
    assert_eq!(null_untagged, Maybe::Null(0));
    assert_eq!(SharedPointer::as_marked_ptr(&null).into_usize(), 3);
    assert_eq!(SharedPointer::set_tag(null, 1), Maybe::Null(1));
    assert_eq!(SharedPointer::clear_tag(null), Maybe::Null(0));
    assert_eq!(SharedPointer::decompose(null), (Maybe::Null(0), 0));

    let value: Maybe<Shared<u64, 2>> =
        SharedPointer::from_marked_non_null(MarkedNonNull::compose_unchecked(0x100, 2));
    let (cleared, tag) = SharedPointer::decompose(value);
    assert_eq!(tag, 2);
    assert_eq!(SharedPointer::into_marked_ptr(cleared).into_usize(), 0x100);
    assert_eq!(SharedPointer::into_marked_ptr(SharedPointer::set_tag(value, 1)).into_usize(), 0x101);
    let _: Option<Owned<u64, 2>> = SharedPointer::with(Owned::<u64, 2>::from_record(0x10, 0));
    let _leaking = Leaking;
}

#[test]
fn dyn_header_fields() {
    let header = DynHeader::new(0xDEAD_BEEFusize);
    assert_eq!(header.header, 0xDEAD_BEEF);
    assert_eq!(header.data_ptr, 0);
}
