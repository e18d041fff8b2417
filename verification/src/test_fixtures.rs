//! Values to exercise the library with: a foreign error, a state and a context.
use vstd::prelude::*;

use crate::context::{Context, ContextValue, Value};
use crate::raw::ForeignError;
use crate::state::State;

verus! {

/// The tag of [`TestError`].
pub const TEST_ERROR_TAG: u64 = 64;

/// The tag of [`TestState`].
pub const TEST_STATE_TAG: u64 = 65;

/// The tag of [`TestMessage`].
pub const TEST_MESSAGE_TAG: u64 = 66;

/// A foreign error whose message is the string it holds.
#[derive(Debug, PartialEq, Eq)]
pub struct TestError(pub &'static str);

impl TestError {
    /// The error `"foo"`.
    pub fn foo() -> (r: TestError)
        ensures
            r.0@ == "foo"@,
    {
        TestError("foo")
    }

    /// The error `"bar"`.
    pub fn bar() -> (r: TestError)
        ensures
            r.0@ == "bar"@,
    {
        TestError("bar")
    }

    /// The error `"baz"`.
    pub fn baz() -> (r: TestError)
        ensures
            r.0@ == "baz"@,
    {
        TestError("baz")
    }

    /// The error as a foreign source error; its debug text is the alternate form of its
    /// derived `Debug`, `TestError(` and the quoted string on a line of its own.
    pub fn into_foreign(self) -> (r: ForeignError)
        ensures
            r.type_tag == TEST_ERROR_TAG,
            r.message@ == self.0@,
            r.source is None,
            r.debug@ == "TestError(\n    \""@ + self.0@ + "\",\n)"@,
    {
        let mut debug = String::from_str("TestError(\n    \"");
        debug.append(self.0);
        debug.append("\",\n)");
        ForeignError::new(TEST_ERROR_TAG, self.0).with_debug(debug.as_str())
    }
}

/// A state with three cases, shown by their names.
#[derive(Debug, PartialEq, Eq)]
pub enum TestState {
    AppleNotFound,
    BananaDenied,
    CherryUnavailable,
}

impl State for TestState {
    open spec fn debug_view(&self) -> Seq<char> {
        match self {
            TestState::AppleNotFound => "AppleNotFound"@,
            TestState::BananaDenied => "BananaDenied"@,
            TestState::CherryUnavailable => "CherryUnavailable"@,
        }
    }

    open spec fn tag_spec() -> u64 {
        TEST_STATE_TAG
    }

    fn debug_text(&self) -> (r: String) {
        match self {
            TestState::AppleNotFound => String::from_str("AppleNotFound"),
            TestState::BananaDenied => String::from_str("BananaDenied"),
            TestState::CherryUnavailable => String::from_str("CherryUnavailable"),
        }
    }

    fn type_tag() -> (t: u64) {
        TEST_STATE_TAG
    }
}

/// A context whose text is the string it holds.
#[derive(Debug, PartialEq, Eq)]
pub struct TestMessage(pub &'static str);

impl TestMessage {
    /// The message `"hoge"`.
    pub fn hoge() -> (r: TestMessage)
        ensures
            r.0@ == "hoge"@,
    {
        TestMessage("hoge")
    }

    /// The message `"fuga"`.
    pub fn fuga() -> (r: TestMessage)
        ensures
            r.0@ == "fuga"@,
    {
        TestMessage("fuga")
    }

    /// The message `"piyo"`.
    pub fn piyo() -> (r: TestMessage)
        ensures
            r.0@ == "piyo"@,
    {
        TestMessage("piyo")
    }

    /// The message as a context value of its own type.
    pub fn into_context(self) -> (r: Value)
        ensures
            r == Value::Lazy(ContextValue { type_tag: TEST_MESSAGE_TAG, text: r->Lazy_0.text }),
            r->Lazy_0.text@ == self.0@,
    {
        Value::Lazy(ContextValue::new(TEST_MESSAGE_TAG, self.0))
    }

    /// The text of the message.
    pub fn to_string(&self) -> (r: String)
        ensures
            r@ == self.0@,
    {
        String::from_str(self.0)
    }
}

impl Context for TestMessage {
    open spec fn ready(&self) -> bool {
        true
    }

    open spec fn gives(&self, v: Value) -> bool {
        v is Lazy && v.pair() == Some((TEST_MESSAGE_TAG, self.0@))
    }

    fn into_value(self) -> (r: Value) {
        self.into_context()
    }
}

} // verus!
