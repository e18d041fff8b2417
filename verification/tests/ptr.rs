use erratic::raw::align4::{Align4, Align4Own, Align4Ptr, Align4PtrCompat, Metadata};

fn all_metadata() -> [Metadata; 4] {
    [Metadata::_0(), Metadata::_1(), Metadata::_2(), Metadata::_3()]
}

fn round_trip() {
    // An address aligned to 4: its low 2 bits are 00.
    let addr: usize = 0x1000;
    for meta in all_metadata() {
        let ptr = Align4Ptr::from_parts(addr, meta);
        let (restored_addr, restored_meta) = ptr.to_parts();
        assert_eq!(restored_addr, addr);
        assert_eq!(restored_meta.0, meta.0);
    }
}

fn unaligned() {
    for addr in [0x1001usize, 0x1002] {
        Align4Ptr::try_from_parts(addr, Metadata::_0()).expect("the address is not aligned to 4");
    }
}

#[test]
fn ptr_align4_ptr_round_trip() {
    round_trip();
}

#[test]
#[should_panic]
fn ptr_align4_ptr_panics_on_unaligned() {
    unaligned();
}

#[test]
fn align4_align4_ptr_round_trip() {
    round_trip();
}

#[test]
#[should_panic]
fn align4_align4_ptr_panics_on_unaligned() {
    unaligned();
}

#[test]
fn unaligned_address_is_refused() {
    assert!(Align4Ptr::try_from_parts(0x1003, Metadata::_1()).is_none());
    let p = Align4Ptr::try_from_parts(0x1004, Metadata::_1()).unwrap();
    let (addr, meta) = p.to_parts();
    assert_eq!(addr, 0x1004);
    assert_eq!(meta.0, 1);
}

fn own_round_trip() {
    let value = Box::new(Align4(42u32));
    let owned = Align4Own::from_boxed(value, Metadata::_1());
    assert_eq!(owned.metadata().0, 1);
    let restored = owned.into_boxed();
    assert_eq!(restored.0, 42);
}

#[test]
fn ptr_align4_own_boxed_round_trip() {
    own_round_trip();
}

#[test]
fn own_align4_own_boxed_round_trip() {
    own_round_trip();
}

const WORD_BYTES: usize = (usize::BITS / 8) as usize;

#[test]
fn compat_align4_ptr_compat_u8_array_one_too_many() {
    assert!(!Align4PtrCompat::<[u8; WORD_BYTES]>::is_inlinable());
}

#[test]
fn ptr_align4_ptr_compat_u8_array_one_too_many() {
    assert!(!Align4PtrCompat::<[u8; WORD_BYTES]>::is_inlinable());
}

#[test]
fn compat_align4_ptr_compat_u8_store_offset() {
    assert!(Align4PtrCompat::<u8>::is_inlinable());
}

#[test]
fn ptr_align4_ptr_compat_u8_store_offset() {
    assert!(Align4PtrCompat::<u8>::is_inlinable());
}

fn u32_store_offset() {
    if usize::BITS == 64 {
        assert!(Align4PtrCompat::<u32>::is_inlinable());
    } else {
        assert!(!Align4PtrCompat::<u32>::is_inlinable());
    }
}

#[test]
fn compat_align4_ptr_compat_u32_store_offset() {
    u32_store_offset();
}

#[test]
fn ptr_align4_ptr_compat_u32_store_offset() {
    u32_store_offset();
}

#[test]
fn compat_align4_ptr_compat_u64_is_oversized() {
    assert!(!Align4PtrCompat::<u64>::is_inlinable());
}

#[test]
fn ptr_align4_ptr_compat_u64_is_oversized() {
    assert!(!Align4PtrCompat::<u64>::is_inlinable());
}

#[test]
fn compat_align4_ptr_compat_new_returns_err_for_oversized() {
    let value = [0x42u8; WORD_BYTES];
    let result = Align4PtrCompat::<[u8; WORD_BYTES]>::new(Metadata::_0(), value);
    assert!(result.is_err());
}

#[test]
fn ptr_align4_ptr_compat_new_returns_err_for_oversized() {
    let value = [0x42u8; WORD_BYTES];
    let result = Align4PtrCompat::<[u8; WORD_BYTES]>::new(Metadata::_0(), value);
    assert!(result.is_err());
}

#[test]
fn compat_align4_ptr_compat_max_u8_array() {
    const N: usize = WORD_BYTES - 1;
    let Ok(v) = Align4PtrCompat::<[u8; N]>::new(Metadata::_0(), [0xAB; N]) else {
        panic!("max u8 array should fit");
    };
    assert_eq!(v.borrow_value(), &[0xAB; N]);
}

#[test]
fn compat_align4_ptr_compat_new_preserves_meta() {
    let Ok(v) = Align4PtrCompat::<[u8; 1]>::new(Metadata::_3(), [0x42]) else {
        panic!("[u8; 1] should fit");
    };
    assert_eq!(*v.borrow_value(), [0x42]);
    assert_eq!(v.metadata().0, 3);
}
