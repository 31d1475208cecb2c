use reclaim::marked::{mark_mask_of, MarkedNonNull, MarkedPtr, Null};

#[test]
fn mask_values() {
    assert_eq!(mark_mask_of(0), 0);
    assert_eq!(mark_mask_of(1), 0b1);
    assert_eq!(mark_mask_of(3), 0b111);
    assert_eq!(mark_mask_of(usize::BITS as usize), usize::MAX);
    assert_eq!(mark_mask_of(1000), usize::MAX);
}

#[test]
fn compose_and_decompose() {
    let p = MarkedPtr::<2>::compose(0x1000, 0b11);
    assert_eq!(p.decompose(), (0x1000, 0b11));
    assert_eq!(p.into_usize(), 0x1003);
    assert_eq!(p.decompose_ptr(), 0x1000);
    assert_eq!(p.decompose_tag(), 0b11);
}

#[test]
fn compose_truncates_tag() {
    let p = MarkedPtr::<2>::compose(0x1000, 0b110);
    assert_eq!(p.decompose(), (0x1000, 0b10));
    let q = MarkedPtr::<0>::compose(0x1000, 0b1);
    assert_eq!(q.decompose(), (0x1000, 0));
}

#[test]
fn null_pointer() {
    let p = MarkedPtr::<3>::null();
    assert!(p.is_null());
    assert_eq!(p.into_usize(), 0);
    assert_eq!(p.decompose(), (0, 0));
    let tagged_null = MarkedPtr::<3>::compose(0, 0b101);
    assert!(tagged_null.is_null());
    assert_eq!(tagged_null.decompose_tag(), 0b101);
}

#[test]
fn tag_updates() {
    let p = MarkedPtr::<3>::from_usize(0x2005);
    assert_eq!(p.clear_tag().into_usize(), 0x2000);
    assert_eq!(p.set_tag(0b010).into_usize(), 0x2002);
    assert_eq!(p.set_tag(0b111).set_tag(0b001).into_usize(), 0x2001);
    let (cleared, tag) = p.split_tag();
    assert_eq!(cleared.into_usize(), 0x2000);
    assert_eq!(tag, 0b101);
    assert!(!p.is_null());
}

#[test]
fn non_null_conversion() {
    let p = MarkedPtr::<2>::compose(0x40, 1);
    let nn = MarkedNonNull::new(p).unwrap();
    assert_eq!(nn.into_marked_ptr().into_usize(), 0x41);
    assert_eq!(nn.decompose(), (0x40, 1));
    assert_eq!(nn.clear_tag().decompose(), (0x40, 0));
    assert_eq!(nn.set_tag(2).decompose(), (0x40, 2));
    assert_eq!(nn.split_tag().1, 1);

    let null = MarkedPtr::<2>::compose(0, 3);
    assert_eq!(MarkedNonNull::new(null), Err(Null(3)));
    assert_eq!(MarkedNonNull::<2>::compose_unchecked(0x80, 7).decompose(), (0x80, 3));
}
