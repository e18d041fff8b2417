use erratic::backtrace::WithBacktrace;
use erratic::builder::{Builder, ErrorExt, Nae};
use erratic::context::Value;
use erratic::raw::{ErasedRawError, NoContext, RawError, SourceNode};
use erratic::render::format_debug;
use erratic::rtti::BOXED_MESSAGE_TAG;
use erratic::state::Stateless;
use erratic::test_fixtures::{TestError, TestMessage, TestState, TEST_ERROR_TAG};
use erratic::{Error, StateExt};

fn foo_node() -> SourceNode {
    SourceNode::Foreign(TestError::foo().into_foreign())
}

#[test]
fn extract_then_restore_gives_the_error_back() {
    let err: Error<TestState> = Builder::<Stateless>::with_error(TestError::foo().into_foreign())
        .attach_state(TestState::BananaDenied)
        .attach_context(TestMessage::hoge())
        .build_error();
    let before = err.to_string_alt();
    let (state, vacant) = err.extract_state().ok().unwrap();
    let back = vacant.with_state(state);
    assert_eq!(back.to_string_alt(), before);
    assert_eq!(back.state(), Some(&TestState::BananaDenied));
}

#[test]
fn vacant_takes_any_word_sized_state() {
    let err: Error<u8> = Builder::<Stateless>::with_error(TestError::foo().into_foreign())
        .attach_state(1u8)
        .build_error();
    let (_, vacant) = err.extract_state().ok().unwrap();
    let err = vacant.try_with_state(2u32).ok().unwrap();
    assert_eq!(err.to_string_alt(), "2\n  -> foo");
}

#[test]
fn vacant_refuses_a_larger_state() {
    let err: Error<u8> = Builder::<Stateless>::with_error(TestError::foo().into_foreign())
        .attach_state(1u8)
        .build_error();
    let (_, vacant) = err.extract_state().ok().unwrap();
    match vacant.try_with_state(2u128) {
        Ok(_) => panic!("a word-sized store cannot take a u128"),
        Err((_, state)) => assert_eq!(state, 2u128),
    }
}

#[test]
fn wrapping_a_stateless_error_adds_no_layer() {
    let inner: Error<Stateless> = Builder::with_error(TestError::foo().into_foreign())
        .attach_context(TestMessage::hoge())
        .build_error();
    let expected = inner.to_string_alt();
    let erased: ErasedRawError = inner.erase();
    let outer = RawError::<TestState>::new(None, Some(SourceNode::Erratic(Box::new(erased))), Value::Empty);
    assert_eq!(outer.to_string_alt(), expected);
    assert_eq!(outer.chain().len(), 2);
}

#[test]
fn build_then_parts_gives_the_parts_back() {
    let err: Error<u16> = Builder::<Stateless>::with_error(TestError::bar().into_foreign())
        .attach_state(9u16)
        .attach_context("ctx")
        .build_error();
    let (state, context, source) = err.into_parts(erratic::rtti::STR_TAG, TEST_ERROR_TAG);
    assert_eq!(state, Some(9));
    assert_eq!(context.unwrap().text, "ctx");
    assert!(matches!(source, Some(SourceNode::Foreign(f)) if f.message == "bar"));
}

#[test]
fn writing_back_the_source_keeps_the_error() {
    let mut err: Error<Stateless> = Builder::with_error(TestError::foo().into_foreign())
        .attach_context(TestMessage::hoge())
        .build_error();
    let before = err.to_string_alt();
    let source = err.downcast_source_mut(TEST_ERROR_TAG).unwrap();
    let same = source.message.clone();
    source.message = same;
    assert_eq!(err.to_string_alt(), before);
}

#[test]
fn backtrace_is_not_captured() {
    assert!(WithBacktrace::try_attach(foo_node()).is_err());
    assert!(!WithBacktrace::searching());
    assert!(WithBacktrace::search_display(None).is_none());
    let err: Error<Stateless> = Error::from_boxed(foo_node());
    assert!(err.backtrace().is_none());
    assert_eq!(err.debug_string(), "foo");
}

#[test]
fn debug_output_appends_the_backtrace_unless_asked_not_to() {
    let raw = RawError::<Stateless>::new(None, Some(foo_node()), Value::Literal("outer"));
    assert_eq!(format_debug(&raw, false, Some("frame")), "outer\n  -> foo\nBacktrace:\nframe");
    assert_eq!(format_debug(&raw, true, Some("frame")), "outer\n  -> foo");
    assert_eq!(format_debug(&raw, false, None), "outer\n  -> foo");
}

#[test]
fn placeholders_have_empty_messages() {
    assert_eq!(NoContext.to_string(), "");
    let _ = Nae::to_string;
}

#[test]
fn boxing_a_literal_error_gives_a_message() {
    let err: Error<Stateless> = Error::from_context("plain");
    match err.into_boxed_error() {
        SourceNode::Foreign(f) => {
            assert_eq!(f.type_tag, BOXED_MESSAGE_TAG);
            assert_eq!(f.message, "plain");
        },
        SourceNode::Erratic(_) => panic!("a literal error boxes into a message"),
    }
}

#[test]
fn result_map_state_on_a_stateless_error_keeps_its_parts() {
    let res: Result<(), Error<u8>> = Err(Error::from_error(TestError::baz().into_foreign()));
    let mapped: Result<(), Error<u16>> = res.map_state(|s: u8| s as u16);
    let err = mapped.unwrap_err();
    assert!(err.state().is_none());
    assert_eq!(err.to_string(), "baz");
}

#[test]
fn erase_error_keeps_the_message() {
    let res: Result<(), Error<TestState>> = Err(Error::from_state(TestState::CherryUnavailable));
    let erased = res.erase_error().unwrap_err();
    assert_eq!(erased.to_string(), "CherryUnavailable");
}

#[test]
fn vacant_of_an_inline_error_takes_the_same_type_back() {
    let err: Error<u8> = Error::from_state(1u8);
    let (_, vacant) = err.extract_state().ok().unwrap();
    assert!(!vacant.has_body());
    let err = match vacant.try_with_state(2u8) {
        Ok(e) => e,
        Err(_) => panic!("reuse succeeds for the same type"),
    };
    assert_eq!(err.state(), Some(&2u8));
    assert!(err.source().is_none());
}

#[test]
fn vacant_of_an_inline_error_refuses_a_larger_type() {
    let err: Error<u8> = Error::from_state(1u8);
    let (_, vacant) = err.extract_state().ok().unwrap();
    match vacant.try_with_state(2u128) {
        Ok(_) => panic!("a u128 does not fit a word"),
        Err((_, state)) => assert_eq!(state, 2u128),
    }
}

#[test]
fn stateless_source_with_context_shows_only_the_context() {
    let mid: Error<Stateless> = Builder::with_error(TestError::bar().into_foreign()).build_error();
    let outer: Error<Stateless> = Builder::with_stateless(mid).attach_context("outer").build_error();
    assert_eq!(outer.to_string(), "outer");
    assert_eq!(outer.to_string_alt(), "outer\n  -> bar");
}

#[test]
fn erasing_keeps_the_rendering() {
    let err: Error<TestState> = Builder::<Stateless>::with_error(TestError::foo().into_foreign())
        .attach_state(TestState::BananaDenied)
        .attach_context(TestMessage::hoge())
        .build_error();
    let message = err.to_string();
    let alt = err.to_string_alt();
    let erased = err.erase();
    assert_eq!(erased.to_string(), message);
    assert_eq!(erased.to_string_alt(), alt);
}

#[test]
fn mapping_to_another_type_keeps_context_and_sources() {
    let err: Error<TestState> = Builder::<Stateless>::with_error(TestError::foo().into_foreign())
        .attach_state(TestState::BananaDenied)
        .attach_context(TestMessage::hoge())
        .build_error();
    let mapped: Error<u64> = err.map_state(|_| 7u64);
    assert_eq!(mapped.state(), Some(&7u64));
    assert_eq!(mapped.to_string_alt(), "7\n  -> hoge\n  -> foo");
}
