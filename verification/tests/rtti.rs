use erratic::rtti::{concretize, is_same_ty, I32_TAG, STATELESS_TAG, STRING_TAG, U32_TAG, UNIT_TAG};
use erratic::state::ErasedState;

#[test]
fn concretize_same_type_returns_ok() {
    let value: i32 = 42;
    let result = concretize(value, I32_TAG);
    assert_eq!(result.unwrap(), 42);
}

#[test]
fn concretize_different_type_returns_err() {
    let value: i32 = 42;
    let result = concretize(value, STRING_TAG);
    assert_eq!(result.unwrap_err(), 42);
}

#[test]
fn concretize_zst_match() {
    let value = ();
    let result = concretize(value, UNIT_TAG);
    assert!(result.is_ok());
}

#[test]
fn concretize_transparent_newtype() {
    // A wrapper is not the type it wraps.
    let value = ErasedState { text: String::from("42"), tag: I32_TAG };
    let result = concretize(value, I32_TAG);
    assert!(result.is_err());
}

#[test]
fn is_same_ty_identical() {
    assert!(is_same_ty(I32_TAG, I32_TAG));
}

#[test]
fn is_same_ty_different() {
    assert!(!is_same_ty(I32_TAG, U32_TAG));
}

#[test]
fn is_same_ty_zst() {
    assert!(is_same_ty(UNIT_TAG, UNIT_TAG));
    assert!(!is_same_ty(UNIT_TAG, STATELESS_TAG));
}
