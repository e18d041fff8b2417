use erratic::raw::state::Ministate;
use std::mem;

#[test]
fn try_new_then_into_inner_round_trips() {
    let value: usize = 0xDEAD_BEEF;
    let state = Ministate::try_new(value).unwrap();
    assert_eq!(state.into_inner(), value);
}

#[test]
fn try_new_then_into_inner_round_trips_drop_type() {
    #[derive(Debug, PartialEq)]
    struct Dropping(usize);
    impl Drop for Dropping {
        fn drop(&mut self) {}
    }

    let value = Dropping(42);
    let state = Ministate::try_new(value).unwrap();
    assert_eq!(state.into_inner(), Dropping(42));
}

fn should_fit<T>() -> bool {
    mem::size_of::<T>() <= mem::size_of::<usize>() && mem::align_of::<T>() <= mem::align_of::<usize>()
}

#[test]
fn int_sizes_respect_word_size() {
    assert_eq!(Ministate::try_new(1u8).is_ok(), should_fit::<u8>());
    assert_eq!(Ministate::try_new(1u16).is_ok(), should_fit::<u16>());
    assert_eq!(Ministate::try_new(1u32).is_ok(), should_fit::<u32>());
    assert_eq!(Ministate::try_new(1u64).is_ok(), should_fit::<u64>());
    assert_eq!(Ministate::try_new(1u128).is_ok(), should_fit::<u128>());
    assert!(Ministate::try_new(1u8).is_ok());
    assert!(Ministate::try_new(1u128).is_err());
}
