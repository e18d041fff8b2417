use erratic::context::Value;
use erratic::raw::source::{BoxedSource, IndirectSource, NoSource, Source};
use erratic::backtrace::WithBacktrace;
use erratic::raw::{RawError, SourceNode};
use erratic::Error;
use erratic::rtti::{BOXED_ERROR_TAG, ERRATIC_TAG};
use erratic::state::Stateless;
use erratic::test_fixtures::{TestError, TEST_ERROR_TAG};

fn foo_node() -> SourceNode {
    SourceNode::Foreign(TestError::foo().into_foreign())
}

fn message_of(node: Option<&SourceNode>) -> Option<String> {
    match node {
        Some(SourceNode::Foreign(f)) => Some(f.message.clone()),
        _ => None,
    }
}

#[test]
fn node_source_reports_itself() {
    let node = foo_node();
    assert_eq!(message_of(node.error_ref()).as_deref(), Some("foo"));
    let node = match node.downcast_container(TEST_ERROR_TAG) {
        Ok(n) => n,
        Err(_) => panic!("a foreign error is found under its own tag"),
    };
    assert!(node.downcast_container(ERRATIC_TAG).is_err());
}

#[test]
fn no_source_reports_nothing() {
    let mut none = NoSource;
    assert!(none.error_ref().is_none());
    assert!(none.error_mut().is_none());
    assert!(NoSource.into_boxed().is_none());
    assert!(NoSource.into_stored().0.is_none());
    assert!(NoSource.downcast_container(TEST_ERROR_TAG).is_err());
    assert!(NoSource.into_backtrace().is_none());
}

#[test]
fn boxed_source_keeps_its_error() {
    let boxed = BoxedSource(foo_node());
    assert_eq!(message_of(boxed.error_ref()).as_deref(), Some("foo"));
    let boxed = match boxed.downcast_container(TEST_ERROR_TAG) {
        Ok(_) => panic!("a boxed source is found only as a box"),
        Err(b) => b,
    };
    let boxed = match boxed.downcast_container(BOXED_ERROR_TAG) {
        Ok(b) => b,
        Err(_) => panic!("a boxed source is found as a box"),
    };
    let inner = boxed.into_boxed();
    assert_eq!(message_of(inner.as_ref()).as_deref(), Some("foo"));
}

#[test]
fn indirect_source_only_wraps_source_only_errors() {
    let wrapped = RawError::<Stateless>::new(None, Some(foo_node()), Value::Empty);
    let indirect = match IndirectSource::try_new(wrapped) {
        Ok(s) => s,
        Err(_) => panic!("an error that only wraps a source is accepted"),
    };
    assert_eq!(message_of(indirect.error_ref()).as_deref(), Some("foo"));
    let indirect = match indirect.downcast_container(ERRATIC_TAG) {
        Ok(s) => s,
        Err(_) => panic!("an indirect source is found as an error of this library"),
    };
    assert_eq!(message_of(indirect.into_stored().0.as_ref()).as_deref(), Some("foo"));

    let with_context = RawError::<Stateless>::new(None, Some(foo_node()), Value::Literal("ctx"));
    assert!(IndirectSource::try_new(with_context).is_err());
}

#[test]
fn error_from_boxed_source_keeps_the_source() {
    let err = RawError::<Stateless>::new(None, Some(BoxedSource(foo_node())), Value::Literal("ctx"));
    assert_eq!(message_of(err.source()).as_deref(), Some("foo"));
    assert_eq!(err.to_string(), "ctx");
}

#[test]
fn error_mut_writes_through_to_the_container() {
    let mut boxed = BoxedSource(foo_node());
    if let Some(SourceNode::Foreign(f)) = boxed.error_mut() {
        f.message = String::from("changed");
    }
    assert_eq!(message_of(boxed.error_ref()).as_deref(), Some("changed"));
}

fn traced(text: &str) -> erratic::raw::source::WithBacktraceSource {
    match WithBacktrace::finish_attach(foo_node(), Some(String::from(text))) {
        (Ok(w), disable) => {
            assert!(!disable);
            w
        }
        (Err(_), _) => panic!("a captured backtrace is attached"),
    }
}

#[test]
fn attached_backtrace_is_found_but_is_no_layer() {
    let err = RawError::<Stateless>::new(None, Some(traced("bt")), Value::Literal("ctx"));
    assert_eq!(err.backtrace().as_deref(), Some("bt"));
    assert_eq!(err.to_string_alt(), "ctx\n  -> foo");
    assert_eq!(message_of(err.source()).as_deref(), Some("foo"));

    let outer = RawError::<Stateless>::new(
        None,
        Some(SourceNode::Erratic(Box::new(err.into_erased()))),
        Value::Literal("outer"),
    );
    assert_eq!(outer.backtrace().as_deref(), Some("bt"));
    assert_eq!(outer.to_string_alt(), "outer\n  -> ctx\n  -> foo");
}

#[test]
fn debug_output_ends_with_the_backtrace() {
    let err = RawError::<Stateless>::new(None, Some(traced("frames")), Value::Literal("ctx"));
    let err: Error<Stateless> = Error::from_boxed(SourceNode::Erratic(Box::new(err.into_erased())));
    assert_eq!(err.backtrace().as_deref(), Some("frames"));
    assert_eq!(err.debug_string(), "ctx\n  -> foo\nBacktrace:\nframes");
}

#[test]
fn attach_step_skips_a_chain_with_a_backtrace() {
    let err = RawError::<Stateless>::new(None, Some(traced("bt")), Value::Literal("ctx"));
    let node = SourceNode::Erratic(Box::new(err.into_erased()));
    assert!(!WithBacktrace::attach_step(false, Some(&node)));
    assert!(WithBacktrace::attach_step(false, Some(&foo_node())));
    assert!(WithBacktrace::attach_step(false, None));
    assert!(!WithBacktrace::attach_step(true, None));
}

#[test]
fn failed_capture_disables_further_attempts() {
    match WithBacktrace::finish_attach(NoSource, None) {
        (Err(_), disable) => assert!(disable),
        (Ok(_), _) => panic!("nothing was captured"),
    }
    match WithBacktrace::try_attach_captured(foo_node(), true) {
        (Err(_), disable) => assert!(!disable),
        (Ok(_), _) => panic!("capture is disabled"),
    }
}

#[test]
fn vacant_without_parts_keeps_its_backtrace() {
    let err = RawError::<u8>::new(Some(1u8), Some(traced_none("bt")), Value::Empty);
    let (_, vacant) = match err.extract_state() {
        Ok(p) => p,
        Err(_) => panic!("the error holds a state"),
    };
    let derived = vacant.unwrap().derive::<u8>(Some(2u8), Value::Literal("ctx"));
    assert_eq!(derived.backtrace().as_deref(), Some("bt"));
    assert!(derived.source().is_none());
}

fn traced_none(text: &str) -> erratic::raw::source::WithBacktraceSource {
    match WithBacktrace::finish_attach(NoSource, Some(String::from(text))) {
        (Ok(w), _) => w,
        (Err(_), _) => panic!("a captured backtrace is attached"),
    }
}

#[test]
fn struct_form_shows_the_backtrace_unless_told_less() {
    let err = RawError::<Stateless>::new(None, Some(traced("frames")), Value::Literal("ctx"));
    assert_eq!(
        err.debug_string(true, false),
        "Error {\n    context: \"ctx\",\n    source: TestError(\n        \"foo\",\n    ),\n    backtrace: frames,\n}"
    );
    assert_eq!(
        err.debug_string(true, true),
        "Error {\n    context: \"ctx\",\n    source: TestError(\n        \"foo\",\n    ),\n}"
    );
    assert_eq!(err.debug_string(false, false), "ctx\n  -> foo\nBacktrace:\nframes");
    assert_eq!(err.debug_string(false, true), "ctx\n  -> foo");
}

#[test]
fn boxed_error_of_this_library_is_kept_as_the_source() {
    let inner: Error<Stateless> = Error::from_context("inner");
    let err: Error<Stateless> = Error::from_boxed(SourceNode::Erratic(Box::new(inner.erase())));
    assert!(err.context().is_none());
    assert!(err.source().is_some());
    assert_eq!(err.to_string(), "inner");
    assert_eq!(err.chain().len(), 1);
}

#[test]
fn boxed_source_is_taken_apart_only_as_a_box() {
    let err: Error<Stateless> = Error::from_boxed(foo_node());
    let (_, _, source) = err.into_parts(0, TEST_ERROR_TAG);
    assert!(source.is_none());
    let err: Error<Stateless> = Error::from_boxed(foo_node());
    let (_, _, source) = err.into_parts(0, BOXED_ERROR_TAG);
    assert_eq!(message_of(source.as_ref()).as_deref(), Some("foo"));
    let err: Error<Stateless> = Error::from_error(TestError::foo().into_foreign());
    let (_, _, source) = err.into_parts(0, TEST_ERROR_TAG);
    assert_eq!(message_of(source.as_ref()).as_deref(), Some("foo"));
}

#[test]
fn no_second_backtrace_is_attached() {
    match WithBacktrace::try_attach_captured(traced("bt"), false) {
        (Err(_), disable) => assert!(!disable),
        (Ok(_), _) => panic!("the container already holds a backtrace"),
    }
    let err = RawError::<Stateless>::new(None, Some(traced("bt")), Value::Literal("ctx"));
    let node = SourceNode::Erratic(Box::new(err.into_erased()));
    match WithBacktrace::try_attach_captured(node, false) {
        (Err(_), disable) => assert!(!disable),
        (Ok(_), _) => panic!("the chain already holds a backtrace"),
    }
}
