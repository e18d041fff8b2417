use erratic::context::{ContextValue, Value};
use erratic::raw::align4::Metadata;
use erratic::raw::state::Metastate;
use erratic::raw::source::NoSource;
use erratic::raw::{ErasedRawError, ForeignError, RawError, SourceNode};
use erratic::rtti::{STRING_TAG, STR_TAG};
use erratic::state::{ErasedState, Stateless};
use erratic::test_fixtures::{TestError, TestMessage, TEST_ERROR_TAG};

/// Tag of a formatting error, which no error here holds.
const FMT_ERROR_TAG: u64 = 101;

/// Tag of the context placeholder type, which no error here holds.
const NO_CONTEXT_TAG: u64 = erratic::raw::NO_CONTEXT_TAG;

const TEST_CONTEXT: &str = "test context";

fn foo() -> Option<SourceNode> {
    Some(SourceNode::Foreign(TestError::foo().into_foreign()))
}

fn bar() -> Option<SourceNode> {
    Some(SourceNode::Foreign(TestError::bar().into_foreign()))
}

fn const_error() -> RawError<Stateless> {
    match RawError::try_new_const(Value::Literal(TEST_CONTEXT)) {
        Ok(err) => err,
        Err(_) => panic!("a literal context makes a const error"),
    }
}

fn string_context(text: &str) -> Value {
    Value::Lazy(ContextValue::from_string(String::from(text)))
}

fn source_only(source: Option<SourceNode>) -> RawError<Stateless> {
    RawError::new(None, source, Value::Empty)
}

fn foreign_message(f: Option<&ForeignError>) -> Option<String> {
    f.map(|f| f.message.clone())
}

#[test]
fn kind_discriminates_const() {
    assert_eq!(const_error().kind().0, 0);
}

#[test]
fn kind_discriminates_inline() {
    let err = RawError::try_new_inline(42u8).ok().unwrap();
    assert_eq!(err.kind().0, 2);
}

#[test]
fn kind_discriminates_boxed() {
    assert_eq!(source_only(foo()).kind().0, 1);
}

#[test]
fn const_variant_context() {
    let err = const_error();
    let ctx = err.context();
    assert_eq!(ctx.unwrap().to_string(), TEST_CONTEXT);
}

#[test]
fn const_variant_source_is_none() {
    assert!(const_error().source().is_none());
}

#[test]
fn inline_variant_state() {
    let err = RawError::try_new_inline(42u16).unwrap();
    assert_eq!(err.state(), Some(&42));
}

#[test]
fn inline_variant_context_is_none() {
    let err = RawError::try_new_inline(42u16).unwrap();
    assert!(err.context().is_none());
}

#[test]
fn inline_variant_source_is_none() {
    let err = RawError::try_new_inline(42u16).unwrap();
    assert!(err.source().is_none());
}

#[test]
fn boxed_variant_source() {
    let err = source_only(foo());
    let src = err.source();
    assert_eq!(src.unwrap().to_string(), "foo");
}

#[test]
fn boxed_variant_downcast_source() {
    let err = source_only(foo());
    let downcasted = err.downcast_source_ref(TEST_ERROR_TAG);
    assert_eq!(foreign_message(downcasted).as_deref(), Some("foo"));
}

#[test]
fn boxed_variant_downcast_source_wrong_type() {
    let err = source_only(foo());
    assert!(err.downcast_source_ref(FMT_ERROR_TAG).is_none());
}

#[test]
fn boxed_variant_context() {
    let err = RawError::<Stateless>::new(None, foo(), Value::Literal(TEST_CONTEXT));
    let ctx = err.context();
    assert_eq!(ctx.unwrap().to_string(), TEST_CONTEXT);
}

#[test]
fn boxed_variant_without_source_is_none() {
    let err = RawError::new(Some(42u32), None::<NoSource>, Value::Empty);
    assert!(err.source().is_none());
    assert_eq!(err.state(), Some(&42));
}

#[test]
fn boxed_variant_into_source_returns_boxed_error() {
    let err = source_only(foo());
    let src = err.into_source();
    assert_eq!(src.unwrap().to_string(), "foo");
}

#[test]
fn boxed_variant_into_source_returns_none() {
    let err = source_only(None);
    assert!(err.into_source().is_none());
}

#[test]
fn boxed_variant_into_parts_matches_types() {
    let state = ErasedState { text: String::from("state"), tag: 7 };
    let err = RawError::new(Some(state), foo(), Value::Literal(TEST_CONTEXT));
    let (state, context, source) = err.into_parts(STR_TAG, TEST_ERROR_TAG);
    assert_eq!(state.map(|s| s.text).as_deref(), Some("state"));
    assert!(matches!(&source, Some(SourceNode::Foreign(f)) if f.message == "foo"));
    assert_eq!(context.map(|c| c.text).as_deref(), Some(TEST_CONTEXT));
}

#[test]
fn boxed_variant_into_parts_context_downcasts() {
    let err = source_only(foo());
    let (_, context, _) = err.into_parts(NO_CONTEXT_TAG, STRING_TAG);
    assert!(context.is_none());
}

#[test]
fn const_variant_into_parts() {
    let err = const_error();
    let (state, context, source) = err.into_parts(STR_TAG, TEST_ERROR_TAG);
    assert!(source.is_none());
    assert_eq!(context.map(|c| c.text).as_deref(), Some(TEST_CONTEXT));
    assert!(state.is_none());
}

#[test]
fn inline_variant_into_parts() {
    let err = RawError::try_new_inline(42u16).unwrap();
    let (state, context, source) = err.into_parts(NO_CONTEXT_TAG, TEST_ERROR_TAG);
    assert!(source.is_none());
    assert!(context.is_none());
    assert_eq!(state, Some(42));
}

#[test]
fn const_variant_state_is_none() {
    assert!(const_error().state().is_none());
}

#[test]
fn state_extraction() {
    {
        let err = RawError::new(Some(42u8), None::<NoSource>, Value::Empty);
        match err.extract_state() {
            Ok((42, None)) => {},
            _ => panic!("an inline state leaves no vacant body"),
        }
    }
    {
        let err = RawError::new(Some(42u128), None::<NoSource>, Value::Empty);
        match err.extract_state() {
            Ok((42, Some(_))) => {},
            _ => panic!("a boxed state leaves a vacant body"),
        }
    }
    {
        let err = RawError::<Stateless>::new(None, None::<NoSource>, TestMessage::hoge().into_context());
        match err.extract_state() {
            Err(err) => assert_eq!(err.to_string(), "hoge"),
            Ok(_) => panic!("there is no state"),
        }
    }
    {
        let err = RawError::new(Some(42i32), None::<NoSource>, TestMessage::hoge().into_context());
        match err.extract_state() {
            Ok((state, Some(vacant))) if state == 42 => {
                let err = vacant.try_with_state(state).ok().unwrap();
                assert_eq!(err.state(), Some(&42));
                assert_eq!(err.context().unwrap().to_string(), "hoge");
            },
            _ => panic!("extract should not fail"),
        }
    }
}

#[test]
fn vacant_reuses_allocation_for_ministate_capable_types() {
    // A state alone would be stored inline; a source forces a body, whose state store fits a
    // word.
    let err = RawError::new(Some(42u8), foo(), Value::Empty);
    assert_eq!(err.kind().0, 1, "a state + source error should be boxed");

    let (state, vacant) = err.extract_state().ok().expect("state should be extractable");
    assert_eq!(state, 42u8);
    let vacant = vacant.expect("u8 fits a word-sized store, so extraction should yield a vacant");

    // The body takes a `u16` state back: both fit a word.
    let err = vacant
        .try_with_state(16u16)
        .ok()
        .expect("u16 fits a word-sized store, so the vacant should be reused");
    assert_eq!(err.kind().0, 1);
    assert_eq!(err.state(), Some(&16u16));
    assert_eq!(err.source().unwrap().to_string(), "foo");
}

#[test]
fn vacant_reuses_allocation_for_same_large_type() {
    // `i128` does not fit a word-sized store.
    let err = RawError::new(Some(42i128), foo(), Value::Empty);
    assert_eq!(err.kind().0, 1, "the error should be boxed");

    let (state, vacant) = err.extract_state().ok().expect("state should be extractable");
    assert_eq!(state, 42i128);
    let vacant = vacant.expect("a boxed body should yield a vacant");

    // The store was made for `i128`, so it takes an `i128` back.
    let err = vacant
        .try_with_state(42i128)
        .ok()
        .expect("same type should be stored back without allocating");
    assert_eq!(err.kind().0, 1);
    assert_eq!(err.state(), Some(&42i128));
}

#[test]
fn is_source_only_accuracy() {
    // 1. Only a source: source-only.
    let err = source_only(foo());
    assert!(err.is_source_only());

    // 2. Only a context: not source-only.
    let err = RawError::<Stateless>::new(None, None::<NoSource>, string_context("ctx"));
    assert_eq!(err.kind().0, 1, "expected a boxed variant");
    assert!(!err.is_source_only());

    // 3. Only a state: not source-only.
    let err = RawError::new(Some(42u128), None::<NoSource>, Value::Empty);
    assert_eq!(err.kind().0, 1, "expected a boxed variant");
    assert!(!err.is_source_only());

    // 3.5. Only a state, erased: a frozen state still counts.
    let err = RawError::new(Some(42u128), None::<NoSource>, Value::Empty);
    let err = err.erase_state();
    assert!(!err.is_source_only());

    // 4. A source and a state: not source-only.
    let err = RawError::new(Some(42u128), foo(), Value::Empty);
    assert!(!err.is_source_only());

    // 5. A source and a state, erased: not source-only.
    let err = RawError::new(Some(42u128), foo(), Value::Empty);
    let err = err.erase_state();
    assert!(!err.is_source_only());

    // 6. A context and a state: not source-only.
    let err = RawError::new(Some(42u128), None::<NoSource>, string_context("ctx"));
    assert_eq!(err.kind().0, 1, "expected a boxed variant");
    assert!(!err.is_source_only());

    // 7. A context and a state, erased: not source-only.
    let err = RawError::new(Some(42u128), None::<NoSource>, string_context("ctx"));
    let err = err.erase_state();
    assert!(!err.is_source_only());
}

#[test]
fn new_eliminates_erased_layer() {
    let inner = source_only(bar());
    let erased = ErasedRawError::from_typed(inner);
    // Wrapping an erased error that only wraps a source adds no layer.
    let err = RawError::<Stateless>::new(None, Some(SourceNode::Erratic(Box::new(erased))), Value::Empty);
    assert_eq!(err.chain().len(), 1);
    assert!(err.downcast_source_ref(TEST_ERROR_TAG).is_some(), "TestError should be reachable directly");
}

#[test]
fn wrapping_source_only_erased_repeatedly_does_not_allocate() {
    let mut err = source_only(bar());
    assert_eq!(err.kind().0, 1, "source-only error should be boxed");

    for _ in 0..5 {
        let erased = ErasedRawError::from_typed(err);
        err = RawError::new(None, Some(SourceNode::Erratic(Box::new(erased))), Value::Empty);

        assert_eq!(err.kind().0, 1);
        assert_eq!(err.chain().len(), 1, "chain length should always be 1");
        assert!(err.downcast_source_ref(TEST_ERROR_TAG).is_some(), "TestError should always be reachable");
    }
}

#[test]
fn round_trip_repeatedly_keeps_single_layer() {
    let mut err = source_only(bar());
    assert_eq!(err.chain().len(), 1);

    for _ in 0..5 {
        let boxed: SourceNode = err.into_boxed_error();
        err = RawError::new(None, Some(boxed), Value::Empty);
        assert_eq!(err.chain().len(), 1, "chain length should always be 1");
        assert_eq!(err.chain().last().unwrap().type_tag, TEST_ERROR_TAG, "TestError should always be reachable");
    }
}

fn reported_message(erased: &ErasedRawError) -> String {
    match erased.error_ref() {
        Some(n) => n.to_string(),
        None => erased.to_string(),
    }
}

#[test]
fn erase_preserves_display() {
    {
        let err = const_error();
        let before = err.to_string();
        let erased = err.into_erased();
        assert_eq!(reported_message(&erased), before, "erasing a const error must preserve its display");
    }
    {
        let err = RawError::try_new_inline(42u16).unwrap();
        let before = err.to_string();
        let erased = err.into_erased();
        assert_eq!(reported_message(&erased), before, "erasing an inline error must preserve its display");
    }
    {
        let err = RawError::<Stateless>::new(None, foo(), Value::Literal(TEST_CONTEXT));
        let before = err.to_string();
        let erased = err.into_erased();
        assert_eq!(reported_message(&erased), before, "erasing a boxed error must preserve its display");
    }
    {
        let err = RawError::new(Some(42u128), foo(), Value::Empty);
        let before = err.to_string();
        let erased = err.into_erased();
        assert_eq!(reported_message(&erased), before, "erasing a boxed error with state must preserve its display");
    }
    {
        let err = RawError::new(Some(42u8), foo(), Value::Empty);
        let before = err.to_string();
        let erased = err.into_erased();
        assert_eq!(reported_message(&erased), before, "erasing a boxed error with state must preserve its display");
    }
    {
        let err = source_only(bar());
        let before = err.to_string();
        let erased = err.into_erased();
        assert_eq!(reported_message(&erased), before, "erasing a source-only error must preserve its display");
    }
}

#[test]
fn state_inlinability_by_size() {
    assert!(RawError::<u8>::is_state_inlinable());
    assert!(!RawError::<u128>::is_state_inlinable());
}

#[test]
fn const_needs_a_literal() {
    match RawError::<Stateless>::try_new_const(string_context("formatted")) {
        Ok(_) => panic!("a formatted context is not a literal"),
        Err(v) => assert!(v.is_some()),
    }
}

#[test]
fn inline_needs_a_word_sized_state() {
    assert_eq!(RawError::try_new_inline(7u128).err(), Some(7u128));
}

#[test]
fn an_inline_state_cannot_be_recovered_as_stateless() {
    let erased = ErasedRawError::from_typed(RawError::try_new_inline(5u8).unwrap());
    let erased = match erased.try_into_stateless() {
        Ok(_) => panic!("an inline state can still be read"),
        Err(e) => e,
    };
    assert_eq!(erased.to_string(), "5");
}

#[test]
fn the_fourth_metadata_encodes_no_metastate() {
    assert!(Metastate::from_metadata(Metadata::_3()).is_none());
    assert!(Metastate::from_metadata(Metadata::_1()) == Some(Metastate::Present));
}

#[test]
fn erased_error_mut_reaches_the_wrapped_source() {
    let mut erased = source_only(foo()).into_erased();
    match erased.error_mut() {
        Some(SourceNode::Foreign(f)) => f.message = String::from("changed"),
        _ => panic!("an error that only wraps a source reports that source"),
    }
    assert_eq!(reported_message(&erased), "changed");

    let mut with_context = RawError::<Stateless>::new(None, foo(), Value::Literal(TEST_CONTEXT)).into_erased();
    assert!(with_context.error_mut().is_none());
}
