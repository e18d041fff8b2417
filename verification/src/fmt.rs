//! Custom formatting: a [`Formatter`] chosen by the state type [`FormatWith`].
//!
//! An error whose state type is `FormatWith<F>` holds no state; it is printed by `F` from its
//! context, the source error it reports and its backtrace. Without methods of its own, `F`
//! prints as an error without a state does.
use vstd::prelude::*;

use crate::backtrace::opt_node;
use crate::context::ContextValue;
use crate::pretty::{format_debug_tail, reported_struct, struct_form, trailer};
use crate::raw::{node_chain, node_display, node_error_ref, opt_str, ConstBody, RawError, SourceNode};
use crate::render::{chain_render, chain_texts, format_chain, link_texts, push_node_chain, ChainLink};
use crate::rtti::{ERRATIC_TAG, STATELESS_TAG};
use crate::state::{State, Stateless};
use crate::{kept_stateless, Error};

verus! {

/// The text of a context, if any.
pub open spec fn context_text(context: Option<ContextValue>) -> Option<Seq<char>> {
    match context {
        Some(c) => Some(c.text@),
        None => None,
    }
}

/// The chain of an error without a state: its context, if any, then the chain of its source.
pub open spec fn stateless_chain(context: Option<ContextValue>, source: Option<SourceNode>) -> Seq<(u64, Seq<char>)> {
    (match context {
        Some(c) => seq![(ERRATIC_TAG, c.text@)],
        None => Seq::empty(),
    }) + match source {
        Some(n) => node_chain(n),
        None => Seq::empty(),
    }
}

/// How an error without a state is displayed: its context, or else the message of its source;
/// with `alternate`, followed by the chain of its source.
pub open spec fn default_display(alternate: bool, context: Option<ContextValue>, source: Option<SourceNode>) -> Seq<char> {
    if alternate {
        chain_render(context is Some, chain_texts(stateless_chain(context, source)))
    } else {
        match context {
            Some(c) => c.text@,
            None => match source {
                Some(n) => node_display(n),
                None => Seq::empty(),
            },
        }
    }
}

/// How an error without a state is debugged: its chain and, unless `show_less`, its backtrace;
/// with `alternate`, the struct form.
pub open spec fn default_debug(
    alternate: bool,
    show_less: bool,
    context: Option<ContextValue>,
    source: Option<SourceNode>,
    backtrace: Option<Seq<char>>,
) -> Seq<char> {
    if alternate {
        struct_form(
            None,
            context_text(context),
            match source {
                Some(n) => Some(reported_struct(n, show_less)),
                None => None,
            },
            if show_less {
                None
            } else {
                backtrace
            },
        )
    } else {
        chain_render(context is Some, chain_texts(stateless_chain(context, source))) + trailer(
            backtrace,
            show_less,
        )
    }
}

/// A formatter for errors, chosen by the state type [`FormatWith`]. It is given the error's
/// context, the source error the error reports, and its backtrace, with the flags of the
/// format: `alternate` (`#`) and `show_less` (`-`).
pub trait Formatter: Sized {
    /// The error as `Display` prints it.
    fn format_display(
        alternate: bool,
        context: Option<ContextValue>,
        source: Option<&SourceNode>,
        backtrace: Option<String>,
    ) -> (r: String)
        default_ensures
            r@ == default_display(alternate, context, opt_node(source)),
    {
        render_stateless(alternate, context, source)
    }

    /// The error as `Debug` prints it.
    fn format_debug(
        alternate: bool,
        show_less: bool,
        context: Option<ContextValue>,
        source: Option<&SourceNode>,
        backtrace: Option<String>,
    ) -> (r: String)
        default_ensures
            r@ == default_debug(alternate, show_less, context, opt_node(source), opt_str(backtrace)),
    {
        debug_stateless(alternate, show_less, context, source, backtrace)
    }
}

/// Renders an error without a state as it is displayed (see [`default_display`]).
pub fn render_stateless(alternate: bool, context: Option<ContextValue>, source: Option<&SourceNode>) -> (r: String)
    ensures
        r@ == default_display(alternate, context, opt_node(source)),
{
    if !alternate {
        return match context {
            Some(c) => c.text,
            None => match source {
                Some(n) => n.to_string(),
                None => String::new(),
            },
        };
    }
    let has_head = context.is_some();
    let mut links: Vec<ChainLink> = Vec::new();
    match context {
        Some(c) => links.push(ChainLink { type_tag: ERRATIC_TAG, message: c.text }),
        None => {},
    }
    let ghost head = crate::render::links_view(links@);
    match source {
        Some(n) => push_node_chain(n, &mut links),
        None => {},
    }
    assert(crate::render::links_view(links@) =~= stateless_chain(context, opt_node(source)));
    let texts = link_texts(&links);
    format_chain(has_head, &texts)
}

/// Renders an error without a state as it is debugged (see [`default_debug`]).
pub fn debug_stateless(
    alternate: bool,
    show_less: bool,
    context: Option<ContextValue>,
    source: Option<&SourceNode>,
    backtrace: Option<String>,
) -> (r: String)
    ensures
        r@ == default_debug(alternate, show_less, context, opt_node(source), opt_str(backtrace)),
{
    if alternate {
        let context_text = match context {
            Some(c) => Some(c.text),
            None => None,
        };
        let source_text = match source {
            Some(n) => Some(crate::pretty::format_reported_struct(n, show_less)),
            None => None,
        };
        let backtrace = if show_less {
            None
        } else {
            backtrace
        };
        crate::pretty::format_struct(None, context_text, source_text, backtrace)
    } else {
        let chain = render_stateless(true, context, source);
        format_debug_tail(chain, show_less, backtrace)
    }
}

/// The state type of an error printed by the formatter `F`. It has no value, so such an error
/// never holds a state; it shares the tag of [`Stateless`].
pub struct FormatWith<F: Formatter> {
    _formatter: core::marker::PhantomData<F>,
    _priv: (),
}

impl<F: Formatter> State for FormatWith<F> {
    open spec fn debug_view(&self) -> Seq<char> {
        Seq::empty()
    }

    open spec fn tag_spec() -> u64 {
        STATELESS_TAG
    }

    fn debug_text(&self) -> (r: String) {
        String::new()
    }

    fn type_tag() -> (t: u64) {
        STATELESS_TAG
    }
}

impl<F: Formatter> Error<FormatWith<F>> {
    /// Discards the custom formatter.
    pub fn into_stateless(self) -> (r: Error<Stateless>)
        ensures
            kept_stateless(self.raw_spec(), r.raw_spec()),
            r.raw_spec().store_kind_spec() == self.raw_spec().store_kind_spec(),
    {
        let raw = self.into_raw();
        let r = match raw {
            RawError::Const(c) => RawError::Const(c),
            RawError::Boxed(b) => RawError::Boxed(Box::new((*b).retype())),
            RawError::Inline(_) => {
                assert(false);
                RawError::Const(ConstBody { context: "" })
            },
        };
        Error::from_raw(r)
    }

    /// The error as `Display` prints it: as the formatter `F` prints it from the error's
    /// context, the source error it reports and its backtrace.
    pub fn format_display(&self, alternate: bool) -> (r: String)
        ensures
            exists|c: Option<ContextValue>, s: Option<&SourceNode>, b: Option<String>| {
                &&& (match c {
                    Some(v) => self.raw_spec().ctx_spec() == Some(v.view_pair()),
                    None => self.raw_spec().ctx_spec() is None,
                })
                &&& (match s {
                    Some(n) => self.raw_spec().src_spec() matches Some(m) && *n == node_error_ref(m),
                    None => self.raw_spec().src_spec() is None,
                })
                &&& opt_str(b) == self.raw_spec().backtrace_spec()
                &&& call_ensures(F::format_display, (alternate, c, s, b), r)
            },
    {
        let c = self.context();
        let s = self.source();
        let b = self.backtrace();
        F::format_display(alternate, c, s, b)
    }

    /// The error as `Debug` prints it: as the formatter `F` prints it.
    pub fn format_debug(&self, alternate: bool, show_less: bool) -> (r: String)
        ensures
            exists|c: Option<ContextValue>, s: Option<&SourceNode>, b: Option<String>| {
                &&& (match c {
                    Some(v) => self.raw_spec().ctx_spec() == Some(v.view_pair()),
                    None => self.raw_spec().ctx_spec() is None,
                })
                &&& (match s {
                    Some(n) => self.raw_spec().src_spec() matches Some(m) && *n == node_error_ref(m),
                    None => self.raw_spec().src_spec() is None,
                })
                &&& opt_str(b) == self.raw_spec().backtrace_spec()
                &&& call_ensures(F::format_debug, (alternate, show_less, c, s, b), r)
            },
    {
        let c = self.context();
        let s = self.source();
        let b = self.backtrace();
        F::format_debug(alternate, show_less, c, s, b)
    }
}

} // verus!
