use erratic::builder::{Builder, ErrorExt};
use erratic::state::Stateless;
use erratic::test_fixtures::{TestError, TestMessage, TestState};
use erratic::Error;

fn generate_simple() -> Error<TestState> {
    Builder::<Stateless>::with_error(TestError::foo().into_foreign())
        .attach_state(TestState::AppleNotFound)
        .attach_context(TestMessage::hoge())
        .build_error()
}

fn generate_triple() -> Error<TestState> {
    let source_1 = TestError::foo().into_foreign();
    let source_2: Error<Stateless> = Error::<Stateless>::from_error(source_1).erase_state();
    let source_3: Error<Stateless> = Builder::<Stateless>::with_stateless(source_2)
        .attach_context(TestMessage::hoge())
        .build_error()
        .erase_state();
    Builder::<Stateless>::with_stateless(source_3)
        .attach_state(TestState::AppleNotFound)
        .attach_context(TestMessage::fuga())
        .build_error()
}

#[test]
fn display_simple() {
    assert_eq!(generate_simple().to_string(), "AppleNotFound: hoge");
}

#[test]
fn display_triple() {
    assert_eq!(generate_triple().to_string(), "AppleNotFound: fuga");
}

#[test]
fn display_alt_simple() {
    assert_eq!(generate_simple().to_string_alt(), "AppleNotFound: hoge\n  -> foo");
}

#[test]
fn display_alt_triple() {
    assert_eq!(
        generate_triple().to_string_alt(),
        "AppleNotFound: fuga\n  -> hoge\n  -> foo"
    );
}

#[test]
fn debug_simple() {
    assert_eq!(generate_simple().debug_string(), "AppleNotFound: hoge\n  -> foo");
}

#[test]
fn debug_triple() {
    assert_eq!(
        generate_triple().debug_string(),
        "AppleNotFound: fuga\n  -> hoge\n  -> foo"
    );
}

#[test]
fn debug_alt_simple() {
    assert_eq!(
        generate_simple().debug_string_with(true, true),
        "Error {\n    state: AppleNotFound,\n    context: \"hoge\",\n    source: TestError(\n        \"foo\",\n    ),\n}"
    );
}

#[test]
fn debug_alt_triple() {
    assert_eq!(
        generate_triple().debug_string_with(true, true),
        "Error {\n    state: AppleNotFound,\n    context: \"fuga\",\n    source: Error {\n        context: \"hoge\",\n        source: TestError(\n            \"foo\",\n        ),\n    },\n}"
    );
}

#[test]
fn debug_alt_of_parts_alone() {
    let literal: Error<Stateless> = Error::from_context("oops");
    assert_eq!(literal.debug_string_with(true, false), "Error {\n    context: \"oops\",\n}");
    let inline: Error<TestState> = Error::from_state(TestState::BananaDenied);
    assert_eq!(inline.debug_string_with(true, false), "Error {\n    state: BananaDenied,\n}");
}

#[test]
fn debug_plain_matches_debug_string() {
    assert_eq!(generate_triple().debug_string_with(false, false), generate_triple().debug_string());
}

#[test]
fn erased_debug_alt_shows_the_struct_form() {
    let erased = generate_simple().erase();
    assert_eq!(
        erased.debug_string(true, true),
        "Error {\n    state: AppleNotFound,\n    context: \"hoge\",\n    source: TestError(\n        \"foo\",\n    ),\n}"
    );
    assert_eq!(erased.debug_string(false, true), "AppleNotFound: hoge\n  -> foo");
}
