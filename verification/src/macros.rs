//! Checked conditions: an error when a condition does not hold.
//!
//! For a failed comparison, the default message shows both operands when their debug text is
//! available: `assertion failed (<lhs> <op> <rhs>): <expression>`; otherwise it is the
//! literal `assertion failed: <expression>`.
use vstd::prelude::*;

use crate::builder::{built_from, built_with, Builder, ErrorExt};
use crate::context::{Context, ContextFn, ContextValue, Value};
use crate::raw::made_from;
use crate::rtti::STRING_TAG;
use crate::state::{State, StateFn, Stateless};
use crate::Error;

verus! {

/// Picks no debug text: for operands without one.
pub struct FromAll;

impl FromAll {
    /// No debug text, whatever the value.
    pub fn from<T>(self, value: &T) -> (r: Option<String>)
        ensures
            r is None,
    {
        None
    }
}

/// Picks the debug text of an operand that has one.
pub struct FromDebug;

impl FromDebug {
    /// The debug text of the value.
    pub fn from<D: State>(self, value: &D) -> (r: Option<String>)
        ensures
            r matches Some(t) && t@ == value.debug_view(),
    {
        Some(value.debug_text())
    }
}

/// Selects [`FromAll`] for any operand.
pub trait SelectAll {
    fn __erratic_select(&self) -> (r: FromAll) {
        FromAll
    }
}

impl<'a, D> SelectAll for &'a D {
}

/// Selects [`FromDebug`] for operands with a debug text.
pub trait SelectDebug {
    fn __erratic_select(&self) -> (r: FromDebug) {
        FromDebug
    }
}

impl<E: State> SelectDebug for E {
}

/// The text `assertion failed (<lhs> <op> <rhs>): <expr>`.
pub open spec fn comparison_text(lhs: Seq<char>, op: Seq<char>, rhs: Seq<char>, expr: Seq<char>) -> Seq<char> {
    "assertion failed ("@ + lhs + " "@ + op + " "@ + rhs + "): "@ + expr
}

/// The context of a failed comparison: with the debug texts of both operands, the text
/// `assertion failed (<lhs> <op> <rhs>): <expr>`; without them, the literal `fallback`.
pub fn comparison_failure(
    lhs: Option<String>,
    op: &str,
    rhs: Option<String>,
    expr: &str,
    fallback: &'static str,
) -> (r: Value)
    ensures
        (lhs is Some && rhs is Some) ==> r == Value::Lazy(
            ContextValue { type_tag: STRING_TAG, text: r->Lazy_0.text },
        ) && r->Lazy_0.text@ == comparison_text(lhs->Some_0@, op@, rhs->Some_0@, expr@),
        !(lhs is Some && rhs is Some) ==> r == Value::Literal(fallback),
{
    match (lhs, rhs) {
        (Some(l), Some(r)) => {
            let mut text = String::from_str("assertion failed (");
            text.append(l.as_str());
            text.append(" ");
            text.append(op);
            text.append(" ");
            text.append(r.as_str());
            text.append("): ");
            text.append(expr);
            proof {
                assert(text@ =~= comparison_text(l@, op@, r@, expr@));
            }
            Value::Lazy(ContextValue::from_string(text))
        },
        _ => Value::Literal(fallback),
    }
}

/// `Ok` when the condition holds; otherwise a stateless error with the given context alone,
/// which is produced only then.
pub fn mksure<C: Context>(condition: bool, context: C) -> (r: Result<(), Error<Stateless>>)
    requires
        context.ready(),
        forall|v: Value| #[trigger] context.gives(v) ==> !(v is Empty),
    ensures
        condition <==> r is Ok,
        r matches Err(e) ==> exists|v: Value| #[trigger] context.gives(v) && made_from(e.raw_spec(), None, None, v),
{
    if condition {
        Ok(())
    } else {
        let b = Builder::<Stateless>::with_context(context);
        let e = b.build_error();
        proof {
            let (s, v) = choose|s: Option<Stateless>, v: Value|
                #![trigger b.may_state(s), b.context_spec().produces(v)]
                b.may_state(s) && b.context_spec().produces(v) && built_with(b.err_spec(), s, v, e);
            assert(context.gives(v) && made_from(e.raw_spec(), None, None, v));
        }
        Err(e)
    }
}

/// `Ok` when the condition holds; otherwise the error the builder builds, whose state and
/// context are produced only then.
pub fn mksure_with<S: State, X: StateFn<S>, F: ContextFn>(condition: bool, builder: Builder<S, X, F>) -> (r: Result<(), Error<S>>)
    ensures
        condition <==> r is Ok,
        r matches Err(e) ==> built_from(builder, e),
{
    if condition {
        Ok(())
    } else {
        Err(builder.build_error())
    }
}

} // verus!
