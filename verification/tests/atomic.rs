use core::sync::atomic::Ordering::{Acquire, Relaxed, Release, SeqCst};

use reclaim::atomic::{Comparable, Storable};
use reclaim::guarded::Guarded;
use reclaim::leak::{Atomic, Guard, Owned, Protected, Unprotected};
use reclaim::marked::MarkedPtr;
use reclaim::traits::{Protect, ProtectExt};
use reclaim::{Maybe, NotEqual};

#[test]
fn null_atomic() {
    let atomic = Atomic::<u64, 1>::null();
    assert!(atomic.load_raw(Relaxed).is_null());
    assert!(atomic.load_unprotected(Relaxed).is_null());
    let default = Atomic::<u64, 1>::default();
    assert_eq!(default.load_raw(SeqCst).into_usize(), 0);
    assert_eq!(default.as_raw().load(SeqCst), 0);
}

#[test]
fn store_owned_with_tag_then_load() {
    let atomic = Atomic::<u64, 1>::null();
    let owned = Owned::<u64, 1>::from_record(0x1000, 0b1);
    atomic.store(owned, Relaxed);
    let mut guard = Guard;
    let protected = atomic.load(&mut guard, Relaxed);
    match protected.shared() {
        Maybe::NotNull(shared) => assert_eq!(shared.decompose(), (0x1000, 0b1)),
        Maybe::Null(_) => panic!("stored pointer is not null"),
    }
}

#[test]
fn load_if_equal_after_load_raw() {
    let atomic = Atomic::<u64, 0>::from_owned(Owned::<u64, 0>::from_record(0x2000, 0));
    let mut guard = Guard;
    let ptr = atomic.load_raw(Relaxed);
    let res = atomic.load_if_equal(ptr, &mut guard, Relaxed);
    assert!(res.is_ok());
    assert_eq!(res.unwrap().into_marked_ptr().into_usize(), 0x2000);
    let other = MarkedPtr::<0>::from_usize(0x3000);
    assert_eq!(atomic.load_if_equal(other, &mut guard, Relaxed).err(), Some(NotEqual));
}

#[test]
fn swap_returns_previous() {
    let atomic = Atomic::<u64, 2>::from_raw(MarkedPtr::compose(0, 2));
    match atomic.swap(Owned::<u64, 2>::from_record(0x4000, 1), Relaxed) {
        Maybe::Null(tag) => assert_eq!(tag, 2),
        Maybe::NotNull(_) => panic!("previous pointer was null"),
    }
    match atomic.swap(Storable::<u64, reclaim::leak::Leaking, 2>::null(), Relaxed) {
        Maybe::NotNull(unlinked) => assert_eq!(unlinked.decompose(), (0x4000, 1)),
        Maybe::Null(_) => panic!("previous pointer was not null"),
    }
    assert!(atomic.load_raw(Relaxed).is_null());
}

#[test]
fn take_and_into_owned() {
    let mut atomic = Atomic::<u64, 1>::from_owned(Owned::<u64, 1>::from_record(0x5000, 1));
    let owned = atomic.take().unwrap();
    assert_eq!(Owned::decompose(&owned), (0x5000, 1));
    assert!(atomic.take().is_none());
    let atomic = Atomic::<u64, 1>::from_storable(Owned::leak(owned));
    let owned = atomic.into_owned().unwrap();
    assert_eq!(Owned::decompose(&owned), (0x5000, 1));
    assert!(Atomic::<u64, 1>::null().into_owned().is_none());
}

#[test]
fn compare_exchange_success_and_failure() {
    let atomic = Atomic::<u64, 1>::from_owned(Owned::<u64, 1>::from_record(0x6000, 0));
    let current = atomic.load_unprotected(Acquire);
    let new = Owned::<u64, 1>::from_record(0x7000, 1);
    match atomic.compare_exchange(current, new, (Release, Relaxed)) {
        Ok(Maybe::NotNull(unlinked)) => assert_eq!(unlinked.decompose(), (0x6000, 0)),
        _ => panic!("the exchange must succeed"),
    }
    assert_eq!(atomic.load_raw(Relaxed).decompose(), (0x7000, 1));

    let stale = current;
    let input = Owned::<u64, 1>::from_record(0x8000, 0);
    match atomic.compare_exchange(stale, input, (Release, Relaxed)) {
        Err(err) => {
            assert_eq!(err.loaded.decompose(), (0x7000, 1));
            assert_eq!(Owned::decompose(&err.input), (0x8000, 0));
        }
        Ok(_) => panic!("the exchange must fail"),
    }
}

#[test]
fn compare_exchange_weak_retries() {
    let atomic = Atomic::<u64, 0>::null();
    let mut new = Owned::<u64, 0>::from_record(0x9000, 0);
    loop {
        let current = atomic.load_unprotected(Relaxed);
        match atomic.compare_exchange_weak(current, new, (Release, Relaxed)) {
            Ok(prev) => {
                assert_eq!(prev, Maybe::Null(0));
                break;
            }
            Err(err) => new = err.input,
        }
    }
    assert_eq!(atomic.load_raw(Relaxed).into_usize(), 0x9000);
}

#[test]
fn compare_exchange_outcome_decides() {
    let current = Unprotected::<u64, 1>::from_marked_ptr(MarkedPtr::compose(0xa000, 1));
    let new = Storable::<u64, reclaim::leak::Leaking, 1>::null();
    let ok = Atomic::<u64, 1>::compare_exchange_outcome(current, new, Ok(0xa001));
    match ok {
        Ok(Maybe::NotNull(unlinked)) => assert_eq!(unlinked.decompose(), (0xa000, 1)),
        _ => panic!("a success unlinks the compared pointer"),
    }
    let err = Atomic::<u64, 1>::compare_exchange_outcome(current, new, Err(0xb000));
    match err {
        Err(e) => assert_eq!(e.loaded.into_marked_ptr().into_usize(), 0xb000),
        Ok(_) => panic!("a failure returns the loaded pointer"),
    }
}

#[test]
fn comparable_conversions() {
    let p = Protected::<u64, 1>::from_marked_ptr(MarkedPtr::compose(0xc000, 1));
    assert_eq!(Comparable::from_protected(p).into_marked_ptr().into_usize(), 0xc001);
    assert_eq!(Comparable::<u64, reclaim::leak::Leaking, 1>::null().into_marked_ptr().into_usize(), 0);
    let u = Unprotected::<u64, 1>::from_marked_ptr(MarkedPtr::from_usize(0xd000));
    assert_eq!(Comparable::from_unprotected(u).into_marked_ptr().into_usize(), 0xd000);
    assert_eq!(Storable::from_protected(p).into_marked_ptr().into_usize(), 0xc001);
}

#[test]
fn fused_guards() {
    let atomic = Atomic::<u64, 1>::from_owned(Owned::<u64, 1>::from_record(0xe000, 1));
    let fused = Guard.protect_fused(&atomic, Acquire);
    assert_eq!(fused.as_protected().into_marked_ptr().into_usize(), 0xe001);
    let shared = fused.into_fused_shared().ok().unwrap();
    assert_eq!(shared.as_shared().decompose(), (0xe000, 1));
    let protected = shared.into_fused_protected();
    assert_eq!(protected.as_protected().decompose_tag(), 1);
    let _guard: Guard = protected.into_guard();

    let expected = MarkedPtr::<1>::compose(0xe000, 1);
    assert!(Guard.protect_fused_if_equal(&atomic, expected, Acquire).is_ok());
    let wrong = MarkedPtr::<1>::compose(0xe000, 0);
    assert!(Guard.protect_fused_if_equal(&atomic, wrong, Acquire).is_err());

    let null_atomic = Atomic::<u64, 1>::null();
    let fused_null = Guard.protect_fused(&null_atomic, Acquire);
    assert!(fused_null.into_fused_shared().is_err());
}

#[test]
fn fused_refs() {
    let atomic = Atomic::<u64, 0>::from_owned(Owned::<u64, 0>::from_record(0xf000, 0));
    let mut guard = Guard;
    let fused = guard.protect_fused_ref(&atomic, Acquire);
    assert_eq!(fused.as_protected().into_marked_ptr().into_usize(), 0xf000);
    let shared_ref = fused.into_fused_shared_ref().ok().unwrap();
    assert_eq!(shared_ref.as_shared().decompose(), (0xf000, 0));
    let owned_fused = shared_ref.transfer_to(Guard);
    let mut other = Guard;
    let (shared_ref, _free) = owned_fused.transfer_to_ref(&mut other);
    assert_eq!(shared_ref.into_shared().decompose(), (0xf000, 0));

    let mut guard = Guard;
    let missing = MarkedPtr::<0>::from_usize(0x10);
    assert!(guard.protect_fused_ref_if_equal(&atomic, missing, Acquire).is_err());
}

#[test]
fn guarded_fusing() {
    let atomic = Atomic::<u64, 1>::from_owned(Owned::<u64, 1>::from_record(0x1_0000, 1));
    let guarded = Guarded::try_fuse(Guard, &atomic, Acquire).ok().unwrap();
    assert_eq!(guarded.shared().decompose(), (0x1_0000, 1));
    let guard: Guard = guarded.into_guard();
    assert_eq!(guard, Guard);

    let null_atomic = Atomic::<u64, 1>::null();
    assert!(Guarded::try_fuse(Guard, &null_atomic, Acquire).is_err());

    let expected = MarkedPtr::<1>::compose(0x1_0000, 1);
    assert!(Guarded::try_fuse_if_equal(Guard, &atomic, expected, Acquire).is_ok());
    let wrong = MarkedPtr::<1>::compose(0x1_0000, 0);
    assert!(Guarded::try_fuse_if_equal(Guard, &atomic, wrong, Acquire).is_err());
    assert!(Guarded::try_fuse_if_equal(Guard, &null_atomic, MarkedPtr::null(), Acquire).is_err());

    let fused = Guarded::<u64, Guard, 1>::fuse_loaded(Guard, MarkedPtr::compose(0x40, 1)).ok().unwrap();
    assert_eq!(fused.shared().decompose(), (0x40, 1));
    assert!(Guarded::<u64, Guard, 1>::fuse_loaded(Guard, MarkedPtr::compose(0, 1)).is_err());
}

#[test]
fn conditional_decisions() {
    let loaded = MarkedPtr::<1>::compose(0x100, 1);
    assert_eq!(Atomic::<u64, 1>::if_equal(loaded, loaded), Ok(loaded));
    assert_eq!(Atomic::<u64, 1>::if_equal(loaded, MarkedPtr::compose(0x100, 0)), Err(NotEqual));

    type Fused = reclaim::fused::FusedProtected<u64, Guard, 1>;
    let fused = Fused::fuse_if_equal(Guard, loaded, loaded).ok().unwrap();
    assert_eq!(fused.as_protected().into_marked_ptr(), loaded);
    assert!(Fused::fuse_if_equal(Guard, loaded, MarkedPtr::null()).is_err());

    type FusedRef<'g> = reclaim::fused::FusedProtectedRef<'g, u64, Guard, 1>;
    let mut guard = Guard;
    let fused_ref = FusedRef::fuse_ref_if_equal(&mut guard, loaded, loaded).ok().unwrap();
    assert_eq!(fused_ref.as_protected().into_marked_ptr(), loaded);
    let _: &mut Guard = fused_ref.into_guard_ref();
    assert_eq!(FusedRef::fuse_ref_if_equal(&mut guard, loaded, MarkedPtr::null()).err(), Some(NotEqual));
}

#[test]
fn raw_atomic_word() {
    let atomic = Atomic::<u64, 1>::from_raw(MarkedPtr::compose(0x200, 1));
    assert_eq!(atomic.as_raw().load(Relaxed), 0x201);
}

#[test]
fn releasing_leak_guards() {
    let mut guard = Guard;
    Protect::<u64>::release(&mut guard);
    assert_eq!(guard, Guard);
    let shared = Guard;
    let mut borrowed = &shared;
    Protect::<u64>::release(&mut borrowed);
    assert_eq!(*borrowed, Guard);
}
