//! Runtime type identities.
//!
//! A type is identified by a `u64` tag. Two values have the same type exactly when their tags
//! are equal.
use vstd::prelude::*;

use crate::state::State;

verus! {

/// The tag of `&'static str` contexts (literals).
pub const STR_TAG: u64 = 1;

/// The tag of `String` contexts (formatted messages).
pub const STRING_TAG: u64 = 2;

/// The tag of nested errors of this library when they appear as a source.
pub const ERRATIC_TAG: u64 = 3;

/// The tag of [`crate::state::Stateless`].
pub const STATELESS_TAG: u64 = 4;

/// The tag of [`crate::state::ErasedState`].
pub const ERASED_STATE_TAG: u64 = 5;

/// The tag of the plain message errors that boxing a string gives.
pub const BOXED_MESSAGE_TAG: u64 = 6;

/// The tag of [`crate::raw::NoContext`].
pub const NO_CONTEXT_TAG: u64 = 7;

/// The tag of a boxed source error, under which a [`crate::raw::source::BoxedSource`] is found
/// again.
pub const BOXED_ERROR_TAG: u64 = 9;

pub const I8_TAG: u64 = 16;

pub const I16_TAG: u64 = 17;

pub const I32_TAG: u64 = 18;

pub const I64_TAG: u64 = 19;

pub const I128_TAG: u64 = 20;

pub const U8_TAG: u64 = 21;

pub const U16_TAG: u64 = 22;

pub const U32_TAG: u64 = 23;

pub const U64_TAG: u64 = 24;

pub const U128_TAG: u64 = 25;

pub const ISIZE_TAG: u64 = 26;

pub const USIZE_TAG: u64 = 27;

/// The tag of `()`.
pub const UNIT_TAG: u64 = 28;

/// Hands the value back as `Ok` when its type is the one `target` denotes, and as `Err`
/// otherwise.
pub fn concretize<T: State>(value: T, target: u64) -> (r: Result<T, T>)
    ensures
        T::tag_spec() == target ==> r == Ok::<T, T>(value),
        T::tag_spec() != target ==> r == Err::<T, T>(value),
{
    if T::type_tag() == target {
        Ok(value)
    } else {
        Err(value)
    }
}

/// Returns `true` if the two tags denote the same type.
pub fn is_same_ty(a: u64, b: u64) -> (r: bool)
    ensures
        r == (a == b),
{
    a == b
}

} // verus!
