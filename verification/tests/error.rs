use erratic::builder::{Builder, BuilderExt, DeriveExt, ErrorExt};
use erratic::context::Value;
use erratic::raw::{ForeignError, RawError, SourceNode};
use erratic::rtti::ERRATIC_TAG;
use erratic::state::Stateless;
use erratic::test_fixtures::{
    TestError, TestMessage, TestState, TEST_ERROR_TAG, TEST_MESSAGE_TAG,
};
use erratic::{Error, StateExt};

/// Tag of the I/O errors these tests make.
const IO_ERROR_TAG: u64 = 100;

/// Tag of a formatting error, which no chain here holds.
const FMT_ERROR_TAG: u64 = 101;

fn foo() -> ForeignError {
    TestError::foo().into_foreign()
}

fn bar() -> ForeignError {
    TestError::bar().into_foreign()
}

fn baz() -> ForeignError {
    TestError::baz().into_foreign()
}

fn io_error(message: &str) -> ForeignError {
    ForeignError::new(IO_ERROR_TAG, message)
}

fn is_test_error(source: &Option<SourceNode>, message: &str) -> bool {
    match source {
        Some(SourceNode::Foreign(f)) => f.type_tag == TEST_ERROR_TAG && f.message == message,
        _ => false,
    }
}

fn context_text(context: &Option<erratic::context::ContextValue>) -> Option<String> {
    context.as_ref().map(|c| c.text.clone())
}

fn source_only(err: ForeignError) -> Error<Stateless> {
    Error::from_error(err)
}

#[test]
fn from_error_round_trip() {
    let err: Error<Stateless> = Error::from_error(foo());
    let (_, context, source) = err.into_parts(TEST_MESSAGE_TAG, TEST_ERROR_TAG);
    assert!(is_test_error(&source, "foo"));
    assert!(context.is_none());
}

#[test]
fn builder_with_error_builds_correctly() {
    let err: Error<Stateless> = Builder::with_error(foo())
        .attach_context(TestMessage::hoge())
        .build_error();
    let (_, context, source) = err.into_parts(TEST_MESSAGE_TAG, TEST_ERROR_TAG);
    assert_eq!(context_text(&context).as_deref(), Some("hoge"));
    assert!(is_test_error(&source, "foo"));
}

#[test]
fn builder_case1() {
    // error only (fast path)
    {
        let err: Error<Stateless> = Builder::with_error(foo()).build_error();
        assert_eq!(err.chain().len(), 1);
        let (_, context, source) = err.into_parts(TEST_MESSAGE_TAG, TEST_ERROR_TAG);
        assert!(context.is_none());
        assert!(is_test_error(&source, "foo"));
    }
    // state only (fast path)
    {
        let err: Error<TestState> = Builder::with_state(TestState::AppleNotFound).build_error();
        assert_eq!(err.chain().len(), 1);
        assert_eq!(err.state().unwrap(), &TestState::AppleNotFound);
        assert!(err.into_source().is_none());
    }
    // context only (fast path)
    {
        let err: Error<Stateless> =
            Builder::with_context(TestMessage::hoge()).build_error();
        assert_eq!(err.chain().len(), 1);
        let (_, context, source) = err.into_parts(TEST_MESSAGE_TAG, TEST_ERROR_TAG);
        assert_eq!(context_text(&context).as_deref(), Some("hoge"));
        assert!(source.is_none());
    }
    // all present (no data loss)
    {
        let err: Error<TestState> = Builder::<Stateless>::with_error(foo())
            .attach_state(TestState::AppleNotFound)
            .attach_context(TestMessage::hoge())
            .build_error();
        let (state, context, source) = err.into_parts(TEST_MESSAGE_TAG, TEST_ERROR_TAG);
        assert_eq!(state, Some(TestState::AppleNotFound));
        assert_eq!(context_text(&context).as_deref(), Some("hoge"));
        assert!(is_test_error(&source, "foo"));
    }
}

#[test]
fn builder_case2() {
    // This case has no meaningful use.
}

#[test]
fn builder_case3() {
    // error only -> state (fast path)
    {
        let err: Error<TestState> = Builder::with_error(foo()).build_error();
        assert_eq!(err.chain().len(), 1);
        let (state, context, source) = err.into_parts(TEST_MESSAGE_TAG, TEST_ERROR_TAG);
        assert!(state.is_none());
        assert!(context.is_none());
        assert!(is_test_error(&source, "foo"));
    }
    // context only -> state (fast path)
    {
        let err: Error<TestState> =
            Builder::with_context(TestMessage::hoge()).build_error();
        let (state, context, source) = err.into_parts(TEST_MESSAGE_TAG, TEST_ERROR_TAG);
        assert!(state.is_none());
        assert_eq!(context_text(&context).as_deref(), Some("hoge"));
        assert!(source.is_none());
    }
    // error + context -> state (no fast path)
    {
        let err: Error<TestState> = Builder::with_error(foo())
            .attach_context(TestMessage::hoge())
            .build_error();
        let (state, context, source) = err.into_parts(TEST_MESSAGE_TAG, TEST_ERROR_TAG);
        assert!(state.is_none());
        assert_eq!(context_text(&context).as_deref(), Some("hoge"));
        assert!(is_test_error(&source, "foo"));
    }
}

#[test]
fn builder_case4() {
    // erratic state -> same state (fast path)
    {
        let inner: Error<TestState> = Builder::<Stateless>::with_error(bar())
            .attach_state(TestState::AppleNotFound)
            .build_error();
        let outer: Error<TestState> = Builder::with_erratic(inner).build_error();
        assert_eq!(outer.chain().len(), 2);
        let (state, context, source) = outer.into_parts(TEST_MESSAGE_TAG, TEST_ERROR_TAG);
        assert_eq!(state, Some(TestState::AppleNotFound));
        assert!(context.is_none());
        assert!(is_test_error(&source, "bar"));
    }
    // erratic source + context (no fast path)
    {
        let inner: Error<TestState> = Builder::<Stateless>::with_error(bar())
            .attach_state(TestState::AppleNotFound)
            .build_error();
        let outer: Error<TestState> = Builder::with_erratic(inner)
            .attach_context(TestMessage::piyo())
            .build_error();
        assert!(outer.find(TEST_ERROR_TAG).is_some());
        let (state, context, _source) = outer.into_parts(TEST_MESSAGE_TAG, TEST_ERROR_TAG);
        assert_eq!(state, Some(TestState::AppleNotFound));
        assert_eq!(context_text(&context).as_deref(), Some("piyo"));
    }
}

#[test]
fn builder_case4_regression_260806() {
    // The context must not be lost when the wrapped error has no state.
    let inner: Error<TestState> = Error::from_error(foo());
    assert!(inner.state().is_none());

    let outer: Error<TestState> = Builder::with_erratic(inner)
        .attach_context(TestMessage::hoge())
        .build_error();

    assert_eq!(outer.context().unwrap().to_string(), "hoge");
    assert!(outer.find(TEST_ERROR_TAG).is_some());
    let (state, context, _source) = outer.into_parts(TEST_MESSAGE_TAG, TEST_ERROR_TAG);
    assert!(state.is_none());
    assert_eq!(context_text(&context).as_deref(), Some("hoge"));
}

#[test]
fn builder_case5() {
    // This case has no meaningful use.
}

#[test]
fn builder_case6() {
    // erratic stateless -> state (fast path)
    {
        let inner = source_only(bar());
        let outer: Error<TestState> = Builder::with_stateless(inner).build_error();
        assert_eq!(outer.chain().len(), 1);
        let (state, context, source) = outer.into_parts(TEST_MESSAGE_TAG, TEST_ERROR_TAG);
        assert!(state.is_none());
        assert!(context.is_none());
        assert!(is_test_error(&source, "bar"));
    }
    // erratic source + context -> state (no fast path)
    {
        let inner = source_only(bar());
        let outer: Error<TestState> = Builder::with_stateless(inner)
            .attach_context(TestMessage::fuga())
            .build_error();
        let (state, context, _source) = outer.into_parts(TEST_MESSAGE_TAG, TEST_ERROR_TAG);
        assert!(state.is_none());
        assert_eq!(context_text(&context).as_deref(), Some("fuga"));
    }
}

#[test]
fn builder_case7() {
    let inner = source_only(bar());
    let _: Error<TestState> = Builder::with_stateless(inner)
        .attach_context(TestMessage::hoge())
        .build_error();
}

#[test]
fn downcast_source_ok() {
    let err = source_only(foo());
    assert!(err.has_source_of(TEST_ERROR_TAG));
    assert_eq!(err.downcast_source_ref(TEST_ERROR_TAG).unwrap().message, "foo");
}

#[test]
fn downcast_source_wrong_type() {
    let err = source_only(foo());
    assert!(!err.has_source_of(IO_ERROR_TAG));
}

#[test]
fn downcast_source_mut_ok() {
    let mut err = source_only(foo());
    let source = err.downcast_source_mut(TEST_ERROR_TAG).unwrap();
    assert_eq!(source.message, "foo");
    *source = bar();
    assert_eq!(err.downcast_source_ref(TEST_ERROR_TAG).unwrap().message, "bar");
}

#[test]
fn downcast_source_mut_wrong_type() {
    let mut err = source_only(foo());
    assert!(err.downcast_source_mut(IO_ERROR_TAG).is_none());
}

#[test]
fn erase_makes_opaque() {
    let err = source_only(foo());
    assert_eq!(err.erase_state().to_string(), "foo");
}

#[test]
fn into_source_returns_boxed_source() {
    let err = source_only(foo());
    assert_eq!(err.into_source().unwrap().to_string(), "foo");
}

#[test]
fn into_source_const_is_none() {
    let err: Error<Stateless> = Error::from_context("test");
    assert!(err.into_source().is_none());
}

#[test]
fn chain_wraps_source() {
    let inner = source_only(bar());
    let outer: Error<Stateless> = inner.erase_state();
    let chain = outer.chain();
    let mut links = chain.iter();
    assert_eq!(links.next().unwrap().to_string(), "bar");
    assert!(links.next().is_none());
}

#[test]
fn from_std_error_via_into() {
    let io_err = io_error("file missing");
    let err: Error<Stateless> = Error::from_error(io_err);
    assert!(err.into_source().is_some());
}

#[test]
fn from_same_type_id_does_not_double_wrap() {
    let inner = source_only(bar());
    let outer: Error<Stateless> = inner.erase_state().with_phantom_state();
    assert_eq!(outer.into_source().unwrap().to_string(), "bar");
}

#[test]
fn into_parts_stateful_recovers_nested_erratic() {
    // A nested error of the library stored as the source can be taken back out.
    let inner: Error<Stateless> = Builder::with_error(foo())
        .attach_context(TestMessage::hoge())
        .build_error();
    let outer: Error<TestState> = Builder::<Stateless>::with_stateless(inner)
        .attach_state(TestState::AppleNotFound)
        .attach_context(TestMessage::piyo())
        .build_error();

    let (state, context, source) = outer.into_parts(TEST_MESSAGE_TAG, ERRATIC_TAG);
    assert_eq!(state, Some(TestState::AppleNotFound));
    assert_eq!(context_text(&context).as_deref(), Some("piyo"));
    assert_eq!(source.as_ref().map(|e| e.to_string()).as_deref(), Some("hoge"));

    // The recovered nested error still carries its own parts.
    let nested: RawError<Stateless> = source
        .expect("nested erratic error should be recoverable")
        .into_erratic()
        .expect("nested erratic error should be stateless");
    let (_, nested_context, nested_source) = nested.into_parts(TEST_MESSAGE_TAG, TEST_ERROR_TAG);
    assert_eq!(context_text(&nested_context).as_deref(), Some("hoge"));
    assert!(is_test_error(&nested_source, "foo"));
}

#[test]
fn into_parts_stateless_recovers_nested_erratic() {
    // Same as above, for a stateless outer error.
    let inner: Error<Stateless> = Builder::with_error(foo())
        .attach_context(TestMessage::hoge())
        .build_error();
    let outer: Error<Stateless> = Builder::with_stateless(inner)
        .attach_context(TestMessage::piyo())
        .build_error();

    let (_, context, source) = outer.into_parts(TEST_MESSAGE_TAG, ERRATIC_TAG);
    assert_eq!(context_text(&context).as_deref(), Some("piyo"));
    assert_eq!(source.as_ref().map(|e| e.to_string()).as_deref(), Some("hoge"));

    let nested: RawError<Stateless> = source
        .expect("nested erratic error should be recoverable")
        .into_erratic()
        .expect("nested erratic error should be stateless");
    let (_, nested_context, nested_source) = nested.into_parts(TEST_MESSAGE_TAG, TEST_ERROR_TAG);
    assert_eq!(context_text(&nested_context).as_deref(), Some("hoge"));
    assert!(is_test_error(&nested_source, "foo"));
}

#[test]
fn into_boxed_error() {
    let err = source_only(foo());
    let boxed: SourceNode = err.into_boxed_error();
    assert_eq!(boxed.to_string(), "foo");
}

#[test]
fn wrap_self() {
    let _: Error<Stateless> = Error::from_context(TestMessage::hoge());
    let _: Error<Stateless> = Error::from_context(TestMessage::hoge());
    let inner: Error<Stateless> = Error::from_context(TestMessage::hoge());
    let _: Error<Stateless> = Builder::with_stateless(inner)
        .attach_context(TestMessage::fuga())
        .build_error();
}

#[test]
fn extract_state() {
    let re: Result<(), Error<i32>> = Err(Error::from_state(12));
    let re = match re.extract_state() {
        Ok(re) => re,
        Err(_) => panic!("a state was attached"),
    };
    match re.unwrap_err() {
        (12, ..) => {},
        _ => unreachable!(),
    }
}

#[test]
fn dedup_repeated_message_in_chain() {
    {
        let outer: Error<Stateless> = Error::from_error(bar());
        assert_eq!(outer.to_string(), "bar");
        assert_eq!(outer.source().unwrap().to_string(), "bar");
        assert_eq!(outer.to_string_alt(), "bar");
    }

    {
        let outer: Error<Stateless> = Builder::with_error(bar())
            .attach_context("outer")
            .build_error();
        assert_eq!(outer.to_string_alt(), "outer\n  -> bar");
    }

    {
        let mid = source_only(bar());
        let outer: Error<Stateless> = Builder::with_stateless(mid)
            .attach_context("outer")
            .build_error();
        assert_eq!(outer.to_string(), "outer");
        assert_eq!(outer.source().unwrap().to_string(), "bar");
        assert_eq!(outer.chain().last().unwrap().to_string(), "bar");
        assert_eq!(outer.to_string_alt(), "outer\n  -> bar");
    }

    {
        let mid: Error<Stateless> = Builder::with_error(bar())
            .attach_context("mid")
            .build_error();
        let outer: Error<Stateless> = Builder::with_stateless(mid)
            .attach_context("outer")
            .build_error();
        assert_eq!(outer.to_string_alt(), "outer\n  -> mid\n  -> bar");
    }
}

#[test]
fn eliminate_alloc() {
    {
        let mid: Error<TestState> = Builder::<Stateless>::with_error(bar())
            .attach_state(TestState::AppleNotFound)
            .build_error();
        let outer: Error<Stateless> = mid.erase_state();
        assert_eq!(outer.chain().len(), 2);
    }
    {
        let mid = source_only(bar());
        let outer: Error<Stateless> = mid.erase_state();
        assert_eq!(outer.chain().len(), 1);
    }
    {
        let mid: Error<Stateless> = Builder::<TestState>::with_error(bar())
            .attach_state(TestState::AppleNotFound)
            .build_error()
            .erase_state();
        let outer: Error<Stateless> = mid;
        assert_eq!(outer.chain().len(), 2);
    }
    {
        let mid = source_only(bar()).erase_state();
        let outer: Error<Stateless> = mid;
        assert_eq!(outer.chain().len(), 1);
    }
    {
        let mid = source_only(bar()).erase_state();
        let outer: Error<Stateless> = Builder::with_stateless(mid).build_error();
        assert_eq!(outer.chain().len(), 1);
    }
}

#[test]
fn deref_and_deref_mut() {
    let err: Error<Stateless> = Error::from_context("oops");
    let raw: &RawError<Stateless> = &*err;
    assert_eq!(raw.to_string(), "oops");
}

fn inner_most() -> Error<Stateless> {
    source_only(baz())
}

fn middle() -> Error<Stateless> {
    Builder::with_stateless(inner_most())
        .attach_context("middle layer")
        .build_error()
}

fn outer_most() -> Error<Stateless> {
    Builder::with_stateless(middle())
        .attach_context("outer layer")
        .build_error()
}

#[test]
fn backtrace_captures_from_first_layer() {
    let err = outer_most();
    let Some(bt) = err.backtrace() else {
        return;
    };
    assert!(bt.contains("outer_most"));
    assert!(bt.contains("inner_most"));
}

#[test]
fn backtrace_only_at_captured_level_in_debug_alt() {
    let err = outer_most();
    let Some(_bt) = err.backtrace() else {
        return;
    };
    let formatted = err.debug_string();
    assert_eq!(formatted.matches("backtrace: Backtrace").count(), 1);
}

#[test]
fn root_finds_deepest_source() {
    let err = outer_most();
    let root = err.root().expect("root should be found");
    assert_eq!(root.to_string(), "baz");
    assert_eq!(root.type_tag, TEST_ERROR_TAG);
}

#[test]
fn find_looks_up_error_chain() {
    let err = outer_most();

    let found = err.find(TEST_ERROR_TAG);
    assert!(found.is_some());
    assert_eq!(found.unwrap().message, "baz");

    assert!(err.find(FMT_ERROR_TAG).is_none());
}

#[test]
fn with_state_fn_attaches_state() {
    let res: Result<(), ForeignError> = Err(io_error("boom"));
    let built: Result<(), Error<TestState>> =
        res.with_state_fn(|| TestState::AppleNotFound).build_error();
    let err = built.unwrap_err();
    assert_eq!(err.state(), Some(&TestState::AppleNotFound));
    assert!(err.find(IO_ERROR_TAG).is_some());
}

#[test]
fn with_state_fn_evaluates_lazily() {
    let calls = std::cell::Cell::new(0u32);
    let res: Result<(), ForeignError> = Err(io_error("boom"));
    let builder = res.with_state_fn(|| {
        calls.set(calls.get() + 1);
        TestState::AppleNotFound
    });
    assert_eq!(calls.get(), 0);
    let built: Result<(), Error<TestState>> = builder.build_error();
    assert_eq!(calls.get(), 1);
    built.unwrap_err();
}

#[test]
fn with_state_fn_ok_short_circuits() {
    let res: Result<u32, ForeignError> = Ok(42);
    let built: Result<u32, Error<TestState>> =
        res.with_state_fn(|| TestState::AppleNotFound).build_error();
    assert_eq!(built.ok().unwrap(), 42);
}

#[test]
fn with_state_fn_keeps_context() {
    let res: Result<(), ForeignError> = Err(io_error("boom"));
    let built: Result<(), Error<TestState>> = res
        .with_state_fn(|| TestState::AppleNotFound)
        .with_context(TestMessage::hoge())
        .build_error();
    let err = built.unwrap_err();
    assert_eq!(err.state(), Some(&TestState::AppleNotFound));
    let (_, context, _) = err.into_parts(TEST_MESSAGE_TAG, TEST_ERROR_TAG);
    assert_eq!(context_text(&context).as_deref(), Some("hoge"));
}

fn derive_io_state(err: &ForeignError) -> Option<TestState> {
    if err.message.starts_with("no such file") {
        Some(TestState::AppleNotFound)
    } else {
        None
    }
}

#[test]
fn with_state_derived_maps_io_not_found() {
    let res: Result<(), ForeignError> = Err(io_error("no such file"));
    let built: Result<(), Error<TestState>> = res.with_state_derived(derive_io_state).build_error();
    let err = built.unwrap_err();
    assert_eq!(err.state(), Some(&TestState::AppleNotFound));
    assert!(err.find(IO_ERROR_TAG).is_some());
}

#[test]
fn with_state_derived_none_leaves_state_empty() {
    let res: Result<(), ForeignError> = Err(io_error("denied"));
    let built: Result<(), Error<TestState>> = res.with_state_derived(derive_io_state).build_error();
    let err = built.unwrap_err();
    assert!(err.state().is_none());
    assert!(err.find(IO_ERROR_TAG).is_some());
}

#[test]
fn with_state_derived_ok_short_circuits() {
    let res: Result<u32, ForeignError> = Ok(7);
    let built: Result<u32, Error<TestState>> = res
        .with_state_derived(|_: &ForeignError| Some(TestState::AppleNotFound))
        .build_error();
    assert_eq!(built.ok().unwrap(), 7);
}
