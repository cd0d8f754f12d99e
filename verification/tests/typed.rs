use smee_alloc::Pointer;
use smee_alloc::Ptr;
use smee_alloc::RawPtr;
use smee_alloc::const_init::ConstInit;

#[test]
fn typed_null_and_dangling() {
    assert!(Ptr::<u64>::null().is_null());
    assert!(!Ptr::<u64>::dangling().is_null());
    assert_ne!(Ptr::<u64>::dangling(), Ptr::<u64>::null());
}

#[test]
fn mut_and_const_conversions_agree() {
    let a = Ptr::<u32>::from_mut_addr(0x4000);
    let b = Ptr::<u32>::from_const_addr(0x4000);
    assert_eq!(a, b);
    assert_eq!(a.as_ptr(), 0x4000);
    assert_eq!(b.as_mut_ptr(), 0x4000);
    assert_eq!(a.as_mut(), 0x4000);
}

#[test]
fn typed_ordering_matches_raw() {
    let a = Ptr::<u8>::from_const_addr(0x1000);
    let b = Ptr::<u8>::from_const_addr(0x2000);
    assert!(a < b);
    assert!(b > a);
    assert_eq!(a.partial_cmp(&a), Some(std::cmp::Ordering::Equal));
    assert_eq!(a.partial_cmp(&b), Some(std::cmp::Ordering::Less));
    assert_eq!(
        RawPtr::new(0x1000).partial_cmp(&RawPtr::new(0x2000)),
        Some(std::cmp::Ordering::Less)
    );
}

#[test]
fn typed_eq_is_raw_eq() {
    let a = Ptr::<u8>::from_const_addr(0x1000);
    assert_eq!(a, a.clone());
    assert_eq!(a.upcast(), RawPtr::new(0x1000));
    let c = Ptr::<u8>::from_const_addr(0x1001);
    assert_ne!(a, c);
}

#[test]
fn downcast_keeps_bits() {
    let r = RawPtr::new(0x5000);
    let t: Ptr<u16> = r.downcast();
    assert_eq!(t.upcast(), r);
    assert_eq!(Ptr::<u16>::new(r).upcast(), r);
}

#[test]
fn capability_on_raw_pointers() {
    let n: RawPtr = <RawPtr as Pointer>::null();
    assert!(RawPtr::is_null(n));
    let d: RawPtr = <RawPtr as Pointer>::dangling();
    assert!(!RawPtr::is_null(d));
    assert_eq!(d.upcast(), RawPtr::dangling());
    assert_eq!(<RawPtr as Pointer>::as_ptr(&RawPtr::new(0x7000)), 0x7000);
}

#[test]
fn const_init_is_null() {
    assert!(RawPtr::const_init().is_null());
    assert!(Ptr::<u8>::const_init().is_null());
}
