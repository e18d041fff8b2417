use erratic::builder::{Builder, ErrorExt};
use erratic::context::ContextValue;
use erratic::fmt::{FormatWith, Formatter};
use erratic::raw::SourceNode;
use erratic::state::Stateless;
use erratic::test_fixtures::{TestError, TestMessage};
use erratic::Error;

struct Plain;

impl Formatter for Plain {}

struct Arrow;

impl Formatter for Arrow {
    fn format_display(
        _alternate: bool,
        context: Option<ContextValue>,
        source: Option<&SourceNode>,
        _backtrace: Option<String>,
    ) -> String {
        let mut out = context.map(|c| c.text).unwrap_or_default();
        let mut next = source;
        while let Some(node) = next {
            out.push_str("\n└─▶ ");
            out.push_str(&node.to_string());
            next = match node {
                SourceNode::Foreign(f) => f.source.as_deref(),
                SourceNode::Erratic(_) => None,
            };
        }
        out
    }
}

fn sample() -> Error<Stateless> {
    Builder::<Stateless>::with_error(TestError::foo().into_foreign())
        .attach_context(TestMessage::hoge())
        .build_error()
}

#[test]
fn default_formatter_prints_as_a_stateless_error() {
    let expected = sample().to_string();
    let expected_alt = sample().to_string_alt();
    let expected_debug = sample().debug_string();
    let err: Error<FormatWith<Plain>> = sample().with_phantom_state();
    assert_eq!(err.format_display(false), expected);
    assert_eq!(err.format_display(true), expected_alt);
    assert_eq!(err.format_debug(false, false), expected_debug);
    assert_eq!(
        err.format_debug(true, true),
        "Error {\n    context: \"hoge\",\n    source: TestError(\n        \"foo\",\n    ),\n}"
    );
}

#[test]
fn custom_formatter_prints_its_own_way() {
    let err: Error<FormatWith<Arrow>> = sample().with_phantom_state();
    assert_eq!(err.format_display(false), "hoge\n└─▶ foo");
}

#[test]
fn into_stateless_discards_the_formatter() {
    let err: Error<FormatWith<Arrow>> = sample().with_phantom_state();
    let plain = err.into_stateless();
    assert_eq!(plain.to_string_alt(), "hoge\n  -> foo");
}
