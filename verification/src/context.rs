//! Contexts attached to errors.
//!
//! A context is kept as given until the error is materialized; only then is it turned into the
//! value stored in the error. A context made from a format string with arguments is formatted
//! at that point, not before.
use vstd::prelude::*;

use crate::rtti::{STR_TAG, STRING_TAG};

verus! {

/// A displayable context stored in an error: its text, and the tag of the type it was made from.
pub struct ContextValue {
    pub type_tag: u64,
    pub text: String,
}

impl ContextValue {
    /// The abstract value of a context: its type tag and its text.
    pub open spec fn view_pair(&self) -> (u64, Seq<char>) {
        (self.type_tag, self.text@)
    }

    /// Creates a context from a type tag and a text.
    pub fn new(type_tag: u64, text: &str) -> (r: ContextValue)
        ensures
            r.type_tag == type_tag,
            r.text@ == text@,
    {
        ContextValue { type_tag, text: String::from_str(text) }
    }

    /// Creates a context of type `String`.
    pub fn from_string(text: String) -> (r: ContextValue)
        ensures
            r.type_tag == STRING_TAG,
            r.text@ == text@,
    {
        ContextValue { type_tag: STRING_TAG, text }
    }

    /// The text of the context, as its `Display` prints it.
    pub fn to_string(&self) -> (r: String)
        ensures
            r@ == self.text@,
    {
        self.text.clone()
    }
}

/// The context value stored in an error.
pub enum Value {
    /// No context.
    Empty,
    /// A string literal, which can be stored without allocation.
    Literal(&'static str),
    /// A context value that has to be stored in an allocated body.
    Lazy(ContextValue),
}

impl Value {
    /// Returns `true` unless this is [`Value::Empty`].
    pub fn is_some(&self) -> (r: bool)
        ensures
            r == !(self is Empty),
    {
        !matches!(self, Value::Empty)
    }

    /// The abstract context this value stores, if any.
    pub open spec fn pair(&self) -> Option<(u64, Seq<char>)> {
        match self {
            Value::Empty => None,
            Value::Literal(l) => Some((STR_TAG, l@)),
            Value::Lazy(c) => Some(c.view_pair()),
        }
    }

    /// Evaluates the value into a stored context, if any.
    pub fn evaluate(self) -> (r: Option<ContextValue>)
        ensures
            match r {
                Some(c) => self.pair() == Some(c.view_pair()),
                None => self.pair() is None,
            },
    {
        match self {
            Value::Empty => None,
            Value::Literal(l) => Some(ContextValue::new(STR_TAG, l)),
            Value::Lazy(c) => Some(c),
        }
    }
}

/// A value that can be attached to an error as its context.
pub trait Context: Sized {
    /// The context can be turned into a value.
    spec fn ready(&self) -> bool;

    /// `v` is a value the context may turn into.
    spec fn gives(&self, v: Value) -> bool;

    /// Turns the context into the value to store.
    fn into_value(self) -> (r: Value)
        requires
            self.ready(),
        ensures
            self.gives(r),
    ;
}

impl Context for Value {
    open spec fn ready(&self) -> bool {
        true
    }

    open spec fn gives(&self, v: Value) -> bool {
        v == *self
    }

    fn into_value(self) -> (r: Value) {
        self
    }
}

impl Context for &'static str {
    open spec fn ready(&self) -> bool {
        true
    }

    open spec fn gives(&self, v: Value) -> bool {
        v == Value::Literal(*self)
    }

    fn into_value(self) -> (r: Value) {
        Value::Literal(self)
    }
}

impl Context for String {
    open spec fn ready(&self) -> bool {
        true
    }

    open spec fn gives(&self, v: Value) -> bool {
        v == Value::Lazy(ContextValue { type_tag: STRING_TAG, text: *self })
    }

    fn into_value(self) -> (r: Value) {
        Value::Lazy(ContextValue { type_tag: STRING_TAG, text: self })
    }
}

impl Context for ContextValue {
    open spec fn ready(&self) -> bool {
        true
    }

    open spec fn gives(&self, v: Value) -> bool {
        v == Value::Lazy(*self)
    }

    fn into_value(self) -> (r: Value) {
        Value::Lazy(self)
    }
}

/// A placeholder for the absence of a context.
pub struct Contextless {
    _priv: (),
}

impl Contextless {
    /// Creates the placeholder.
    pub fn new() -> (r: Contextless) {
        Contextless { _priv: () }
    }
}

impl Context for Contextless {
    open spec fn ready(&self) -> bool {
        true
    }

    open spec fn gives(&self, v: Value) -> bool {
        v is Empty
    }

    fn into_value(self) -> (r: Value) {
        Value::Empty
    }
}

/// The formatted text of a format string: not computed yet, or computed (none when the format
/// string has no arguments).
pub enum MaybeEvaluated<F> {
    Lazy(F),
    Evaluated(Option<String>),
}

/// The placeholder formatting of a format string without arguments.
pub struct NoArguments;

/// A context made from a format string: the literal, and the formatting that gives the text
/// when the format string has arguments. The formatting runs only when the context is used.
pub struct Mkctx<F> {
    literal: &'static str,
    context: MaybeEvaluated<F>,
}

/// The value a format string `literal` gives once its formatting gave `formatted`: the literal
/// itself, stored without allocation, when there are no arguments; otherwise the formatted
/// `String`.
pub open spec fn format_value(literal: &'static str, formatted: Option<String>, v: Value) -> bool {
    match formatted {
        None => v == Value::Literal(literal),
        Some(s) => v == Value::Lazy(ContextValue { type_tag: STRING_TAG, text: s }),
    }
}

impl<F: FnOnce() -> Option<String>> Mkctx<F> {
    /// The format string.
    pub closed spec fn literal_spec(&self) -> &'static str {
        self.literal
    }

    /// The formatting state.
    pub closed spec fn context_spec(&self) -> MaybeEvaluated<F> {
        self.context
    }

    /// `formatted` is a text the formatting may give.
    pub open spec fn may_format(&self, formatted: Option<String>) -> bool {
        match self.context_spec() {
            MaybeEvaluated::Lazy(f) => f.ensures((), formatted),
            MaybeEvaluated::Evaluated(o) => formatted == o,
        }
    }

    /// The formatting can run.
    pub open spec fn can_format(&self) -> bool {
        match self.context_spec() {
            MaybeEvaluated::Lazy(f) => f.requires(()),
            MaybeEvaluated::Evaluated(_) => true,
        }
    }

    /// Makes a context from a format string and its formatting, which is not run yet.
    pub fn __priv_new(literal: &'static str, format: F) -> (r: Mkctx<F>)
        ensures
            r.literal_spec() == literal,
            r.context_spec() == MaybeEvaluated::Lazy(format),
    {
        Mkctx { literal, context: MaybeEvaluated::Lazy(format) }
    }

    /// Runs the formatting, if it has not run yet.
    fn evaluate(self) -> (r: (&'static str, Option<String>))
        requires
            self.can_format(),
        ensures
            r.0 == self.literal_spec(),
            self.may_format(r.1),
    {
        match self.context {
            MaybeEvaluated::Lazy(f) => (self.literal, f()),
            MaybeEvaluated::Evaluated(o) => (self.literal, o),
        }
    }

    /// Selects the literal form when the format string has no arguments; otherwise gives the
    /// context back, formatted.
    pub fn select(self) -> (r: Result<&'static str, Mkctx<F>>)
        requires
            self.can_format(),
        ensures
            r matches Ok(l) ==> l == self.literal_spec() && self.may_format(None),
            r matches Err(m) ==> {
                &&& m.literal_spec() == self.literal_spec()
                &&& m.context_spec() matches MaybeEvaluated::Evaluated(Some(s)) && self.may_format(Some(s))
            },
    {
        let (literal, formatted) = self.evaluate();
        match formatted {
            None => Ok(literal),
            Some(s) => Err(Mkctx { literal, context: MaybeEvaluated::Evaluated(Some(s)) }),
        }
    }

    /// Like [`Mkctx::select`], giving the literal form as a context of its own.
    pub fn try_into_alt(self) -> (r: Result<Mkctx<NoArguments>, Mkctx<F>>)
        requires
            self.can_format(),
        ensures
            r matches Ok(m) ==> m.const_literal_spec() == self.literal_spec() && self.may_format(None),
            r matches Err(m) ==> {
                &&& m.literal_spec() == self.literal_spec()
                &&& m.context_spec() matches MaybeEvaluated::Evaluated(Some(s)) && self.may_format(Some(s))
            },
    {
        match self.select() {
            Ok(literal) => Ok(Mkctx::__priv_new_const(literal)),
            Err(m) => Err(m),
        }
    }
}

impl Mkctx<NoArguments> {
    /// The format string.
    pub closed spec fn const_literal_spec(&self) -> &'static str {
        self.literal
    }

    /// Makes a context from a format string without arguments.
    pub fn __priv_new_const(literal: &'static str) -> (r: Mkctx<NoArguments>)
        ensures
            r.const_literal_spec() == literal,
    {
        Mkctx { literal, context: MaybeEvaluated::Evaluated(None) }
    }

    /// The literal: a format string without arguments needs no formatting.
    pub fn select(self) -> (r: Result<&'static str, Mkctx<NoArguments>>)
        ensures
            r == Ok::<&'static str, Mkctx<NoArguments>>(self.const_literal_spec()),
    {
        Ok(self.literal)
    }
}

impl<F: FnOnce() -> Option<String>> Context for Mkctx<F> {
    open spec fn ready(&self) -> bool {
        self.can_format()
    }

    open spec fn gives(&self, v: Value) -> bool {
        exists|o: Option<String>| self.may_format(o) && format_value(self.literal_spec(), o, v)
    }

    fn into_value(self) -> (r: Value) {
        let (literal, formatted) = self.evaluate();
        let r = match formatted {
            None => Value::Literal(literal),
            Some(s) => Value::Lazy(ContextValue { type_tag: STRING_TAG, text: s }),
        };
        assert(self.may_format(formatted) && format_value(self.literal_spec(), formatted, r));
        r
    }
}

impl Context for Mkctx<NoArguments> {
    open spec fn ready(&self) -> bool {
        true
    }

    open spec fn gives(&self, v: Value) -> bool {
        v == Value::Literal(self.const_literal_spec())
    }

    fn into_value(self) -> (r: Value) {
        Value::Literal(self.literal)
    }
}

/// Something that produces a context when an error is materialized.
pub trait ContextFn: Sized {
    /// The context can be produced.
    spec fn ready(&self) -> bool;

    /// `v` is a context value this may produce.
    spec fn produces(&self, v: Value) -> bool;

    /// Produces the context value.
    fn call(self) -> (r: Value)
        requires
            self.ready(),
        ensures
            self.produces(r),
    ;
}

/// A context given as it is, turned into its value when the error is materialized.
pub struct Identity<C: Context>(pub C);

impl<C: Context> ContextFn for Identity<C> {
    open spec fn ready(&self) -> bool {
        self.0.ready()
    }

    open spec fn produces(&self, v: Value) -> bool {
        self.0.gives(v)
    }

    fn call(self) -> (r: Value) {
        self.0.into_value()
    }
}

impl<F: FnOnce() -> R, R: Context> ContextFn for F {
    open spec fn ready(&self) -> bool {
        &&& self.requires(())
        &&& forall|c: R| self.ensures((), c) ==> c.ready()
    }

    open spec fn produces(&self, v: Value) -> bool {
        exists|c: R| self.ensures((), c) && c.gives(v)
    }

    fn call(self) -> (r: Value) {
        let c = self();
        c.into_value()
    }
}

} // verus!
