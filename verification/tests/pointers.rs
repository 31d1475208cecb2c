use reclaim::leak::{Leaking, Owned, Protected, Shared, Unlinked, Unprotected};
use reclaim::marked::{MarkedNonNull, MarkedPtr};
use reclaim::retired::Retired;
use reclaim::Maybe;

#[test]
fn protected_null_and_shared() {
    let null = Protected::<u64, 1>::null();
    assert!(null.is_null());
    assert_eq!(null.shared(), Maybe::Null(0));

    let tagged_null = Protected::<u64, 1>::from_marked_ptr(MarkedPtr::compose(0, 1));
    assert!(tagged_null.is_null());
    assert_eq!(tagged_null.shared(), Maybe::Null(1));

    let p = Protected::<u64, 1>::from_marked_ptr(MarkedPtr::compose(0x100, 1));
    assert!(!p.is_null());
    match p.shared() {
        Maybe::NotNull(shared) => assert_eq!(shared.decompose(), (0x100, 1)),
        Maybe::Null(_) => panic!("a non-null pointer must be shared"),
    }
    assert_eq!(p.shared_unchecked().decompose(), (0x100, 1));
    assert_eq!(Protected::<u64, 1>::default().into_marked_ptr().into_usize(), 0);
}

#[test]
fn protected_tags() {
    let p = Protected::<u64, 2>::from_marked_ptr(MarkedPtr::compose(0x100, 3));
    assert_eq!(p.decompose_tag(), 3);
    assert_eq!(p.clear_tag().decompose(), (0x100, 0));
    assert_eq!(p.set_tag(1).decompose(), (0x100, 1));
    assert_eq!(p.update_tag(|tag| tag - 1).decompose(), (0x100, 2));
    let (cleared, tag) = p.split_tag();
    assert_eq!((cleared.into_marked_ptr().into_usize(), tag), (0x100, 3));
    let cast: Protected<'_, u32, 2> = p.cast();
    assert_eq!(cast.into_marked_ptr().into_usize(), 0x103);
}

#[test]
fn shared_tags() {
    let s = Shared::<u64, 2>::from_marked_ptr(MarkedPtr::compose(0x200, 2));
    assert_eq!(s.decompose(), (0x200, 2));
    assert_eq!(s.clear_tag().decompose(), (0x200, 0));
    assert_eq!(s.set_tag(5).decompose(), (0x200, 1));
    assert_eq!(s.update_tag(|tag| tag + 1).decompose(), (0x200, 3));
    assert_eq!(s.split_tag().1, 2);
    assert_eq!(s.into_marked_ptr().into_usize(), 0x202);
}

#[test]
fn unprotected_tags_and_storable() {
    let u = Unprotected::<u64, 1>::from_marked_ptr(MarkedPtr::compose(0x300, 1));
    assert!(!u.is_null());
    assert_eq!(u.decompose(), (0x300, 1));
    assert_eq!(u.clear_tag().decompose(), (0x300, 0));
    assert_eq!(u.set_tag(0).decompose_tag(), 0);
    assert_eq!(u.assume_storable().into_marked_ptr().into_usize(), 0x301);
    assert!(Unprotected::<u64, 1>::null().is_null());
    assert!(Unprotected::<u64, 1>::default().is_null());
    assert_eq!(u.cast::<u16>().into_marked_ptr().into_usize(), 0x301);
}

#[test]
fn owned_tags_and_leak() {
    let owned = Owned::<u64, 2>::from_record(0x400, 0b1);
    assert_eq!(Owned::decompose(&owned), (0x400, 1));
    assert_eq!(Owned::decompose_tag(&owned), 1);
    assert_eq!(Owned::as_marked_ptr(&owned).into_usize(), 0x401);
    let owned = Owned::set_tag(owned, 0b10);
    assert_eq!(Owned::decompose(&owned), (0x400, 2));
    let owned = Owned::clear_tag(owned);
    assert_eq!(Owned::decompose(&owned), (0x400, 0));
    let storable = Owned::leak(owned);
    assert_eq!(storable.into_marked_ptr().into_usize(), 0x400);
    let owned = Owned::from_storable(storable);
    assert_eq!(Owned::into_marked_ptr(owned).into_usize(), 0x400);
}

#[test]
fn unlinked_into_retired() {
    let unlinked = Unlinked::<u64, 1>::from_marked_ptr(MarkedPtr::compose(0x500, 1));
    assert_eq!(unlinked.decompose(), (0x500, 1));
    assert_eq!(unlinked.as_marked_ptr().into_usize(), 0x501);
    let retired: Retired<Leaking> = unlinked.into_retired();
    assert_eq!(retired.as_retired_ptr(), 0x500);
    assert_eq!(retired.as_ptr(), 0x500);
    assert_eq!(retired.header_ptr(), 0x500);
}

#[test]
fn unlinked_tags() {
    let unlinked = Unlinked::<u64, 2>::from_marked_non_null(MarkedNonNull::compose_unchecked(0x600, 3));
    let (cleared, tag) = unlinked.split_tag();
    assert_eq!(tag, 3);
    assert_eq!(cleared.decompose(), (0x600, 0));
    assert_eq!(cleared.set_tag(1).decompose_tag(), 1);
}

#[test]
fn retired_comparisons() {
    let a: Retired<Leaking> = Unlinked::<u64, 0>::from_marked_ptr(MarkedPtr::from_usize(0x10)).into_retired();
    let b: Retired<Leaking> = Unlinked::<u64, 0>::from_marked_ptr(MarkedPtr::from_usize(0x20)).into_retired();
    let c: Retired<Leaking> = Unlinked::<u64, 1>::from_marked_ptr(MarkedPtr::compose(0x10, 1)).into_retired();
    assert!(a == c);
    assert!(a != b);
    assert!(a < b);
    assert_eq!(b.partial_cmp(&a), Some(core::cmp::Ordering::Greater));
}

#[test]
fn clear_tag_equals_zero_tag() {
    let u = Unprotected::<u64, 3>::from_marked_ptr(MarkedPtr::compose(0x700, 5));
    assert_eq!(u.clear_tag().into_marked_ptr(), u.set_tag(0).into_marked_ptr());
    assert_eq!(u.set_tag(6).set_tag(2).into_marked_ptr(), u.set_tag(2).into_marked_ptr());
}
