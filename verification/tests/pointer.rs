use smee_alloc::BadPtrKind;
use smee_alloc::PtrKind;
use smee_alloc::RawPtr;
use smee_alloc::pointer::x86_64::hex_string;

#[test]
fn native_round_trip() {
    let p = RawPtr::new(0x1000);
    assert_eq!(p.as_ptr(), 0x1000);
    assert_eq!(p.to_usize(), 0x1000usize);
    assert_eq!(p.raw_value(), 0x1000);
}

#[test]
fn concrete_scenario() {
    let p = RawPtr::new(0x0000_7f00_0000_1000);
    assert_eq!(p.kind(), PtrKind::Native);
    assert_eq!(p.as_ptr(), 0x0000_7f00_0000_1000);
    let q = p.offset(8);
    assert_eq!(q.as_ptr(), 0x0000_7f00_0000_1008);
    assert!(p.checked_add(u64::MAX).is_none());
}

#[test]
fn null_invariant() {
    assert!(RawPtr::null().is_null());
    assert!(RawPtr::null_mut().is_null());
    assert!(!RawPtr::new(1).is_null());
    assert!(!RawPtr::new(0x0000_7f00_0000_1000).is_null());
    assert!(!RawPtr::dangling().is_null());
}

#[test]
fn null_has_native_kind() {
    assert_eq!(RawPtr::null().kind(), PtrKind::Native);
}

#[test]
fn dangling_distinct_from_null() {
    assert_ne!(RawPtr::dangling(), RawPtr::null());
    assert_eq!(RawPtr::dangling().raw_value(), u64::MAX);
    assert_eq!(RawPtr::null().raw_value(), 0);
    assert_eq!(RawPtr::dangling().kind(), PtrKind::Dangling);
}

#[test]
fn kind_round_trip() {
    let kinds = [PtrKind::Native, PtrKind::Unknown, PtrKind::Dangling];
    for k in kinds {
        assert_eq!(PtrKind::try_from(k.into_tag()), Ok(k));
    }
}

#[test]
fn tag_values() {
    assert_eq!(PtrKind::Native.into_tag(), 0x0000);
    assert_eq!(PtrKind::Unknown.into_tag(), 0xfffe);
    assert_eq!(PtrKind::Dangling.into_tag(), 0xffff);
}

#[test]
fn bad_tags_rejected() {
    let bad = [0x0001u16, 0x1234, 0x8000, 0xfffd];
    for t in bad {
        assert_eq!(PtrKind::try_from(t), Err(BadPtrKind((t as u64) << 48)));
    }
}

#[test]
fn checked_add_in_range() {
    let p = RawPtr::new(0x1000);
    assert_eq!(p.checked_add(8), Some(RawPtr::new(0x1008)));
    assert_eq!(p.checked_add(0), Some(p));
}

#[test]
fn offset_negative() {
    let p = RawPtr::new(0x2000);
    assert_eq!(p.offset(-0x10), RawPtr::new(0x1ff0));
    assert_eq!(p.offset(0), p);
}

#[test]
fn fields_extracted() {
    let p = RawPtr::new(0xffff_1234_5678_9abc);
    assert_eq!(p.kind(), PtrKind::Dangling);
    assert_eq!(p.handle_offset_pair(), (0x1234, 0x5678_9abc));
    assert_eq!(p.data(), 0x0000_1234_5678_9abc);
}

#[test]
fn debug_text_dangling() {
    assert_eq!(RawPtr::dangling().debug_string().as_str(), "Ptr(Dangling)");
}

#[test]
fn debug_text_native() {
    let p = RawPtr::new(0x0000_7f00_0000_1000);
    assert_eq!(p.debug_string().as_str(), "Ptr(Native, 0x00007f0000001000)");
}

#[test]
fn debug_text_unknown() {
    let p = RawPtr::new(0xfffe_0000_0000_0001);
    assert_eq!(p.debug_string().as_str(), "Ptr(Unknown, 0xfffe000000000001)");
}

#[test]
fn hex_text_of_words() {
    assert_eq!(hex_string(0).as_str(), "0x0000000000000000");
    assert_eq!(hex_string(u64::MAX).as_str(), "0xffffffffffffffff");
    assert_eq!(hex_string(0x0123_4567_89ab_cdef).as_str(), "0x0123456789abcdef");
}
