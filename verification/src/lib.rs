//! An error type with a typed state, an optional context and an optional source.
//!
//! An error is stored in the cheapest of three layouts: a literal context alone needs no
//! allocation, a small state alone is stored inline, and anything else lives in an allocated
//! body. Its message is built from its state and context (`<state>": "<context>`, `<context>`
//! or `<state>`), or, when it has neither, taken from its source.
pub mod backtrace;
pub mod builder;
pub mod context;
pub mod decimal;
pub mod fmt;
pub mod laws;
pub mod macros;
pub mod payload;
pub mod pretty;
pub mod raw;
pub mod render;
pub mod rtti;
pub mod state;
pub mod test_fixtures;

use vstd::prelude::*;

use crate::context::{Context, ContextValue, Contextless, Value};
use crate::raw::source::{BoxedSource, NoSource};
use crate::raw::state::{store_accepts, Metastate};
use crate::raw::{made_from, node_error_ref, node_tag, ErasedRawError, ForeignError, RawError, SourceNode};
use crate::render::{chain_render, chain_texts, links_view, ChainLink};
use crate::rtti::STATELESS_TAG;
use crate::state::{State, Stateless, Vacant};

verus! {

/// The storage invariant of an error with state type `S`: a readable state is never of the
/// placeholder type [`Stateless`], and a readable state in a body sits in a store that accepts
/// its type.
pub open spec fn raw_wf<S: State>(raw: RawError<S>) -> bool {
    &&& raw.meta_spec() == Metastate::Present ==> S::tag_spec() != STATELESS_TAG
    &&& (raw.kind_spec() == 1 && raw.meta_spec() == Metastate::Present) ==> store_accepts::<S>(
        raw.store_kind_spec(),
    )
}

/// Mapping the state of `e` to a state of type `S2` replaces it in place: the new state has
/// the same type, and either the state was stored inline or the body's store accepts it.
pub open spec fn maps_in_place<S: State, S2: State>(e: RawError<S>) -> bool {
    S2::tag_spec() == S::tag_spec() && (e.kind_spec() == 2 || store_accepts::<S2>(e.store_kind_spec()))
}

/// `r` keeps the context and the source of `e`.
pub open spec fn kept_around<S: State, S2: State>(e: RawError<S>, r: RawError<S2>) -> bool {
    r.ctx_spec() == e.ctx_spec() && r.src_spec() == e.src_spec()
}

/// `r` has no context, and the context and source of `e`, if any, make up its source: an
/// erased error without a state.
pub open spec fn derived_around<S: State, S2: State>(e: RawError<S>, r: RawError<S2>) -> bool {
    &&& r.ctx_spec() is None
    &&& (e.ctx_spec() is None && e.src_spec() is None) ==> r.src_spec() is None
    &&& !(e.ctx_spec() is None && e.src_spec() is None) ==> (r.src_spec() matches Some(
        SourceNode::Erratic(x),
    ) && {
        &&& x.state_text_spec() is None
        &&& x.ctx_spec() == e.ctx_spec()
        &&& x.src_spec() == e.src_spec()
    })
}

/// `r` holds the parts of `e`: its readable state, its context if it has type `ctx_tag`, and
/// its source if the container it was given in has type `src_tag`.
pub open spec fn parts_of<S: State>(
    e: RawError<S>,
    ctx_tag: u64,
    src_tag: u64,
    r: (Option<S>, Option<ContextValue>, Option<SourceNode>),
) -> bool {
    &&& r.0 == e.present_spec()
    &&& match r.1 {
        Some(c) => e.ctx_spec() == Some(c.view_pair()) && c.type_tag == ctx_tag,
        None => !(e.ctx_spec() matches Some(p) && p.0 == ctx_tag),
    }
    &&& r.2 == (match e.src_spec() {
        Some(n) => if e.src_tag_spec() == Some(src_tag) {
            Some(n)
        } else {
            None
        },
        None => None,
    })
}

/// `state` is the state taken out of `e`, and `vacant` keeps the rest of `e`: its context, its
/// source, and, unless the state was stored inline, its allocated body and state store.
pub open spec fn extracted<S: State>(e: RawError<S>, state: S, vacant: Vacant<S>) -> bool {
    &&& e.present_spec() == Some(state)
    &&& (vacant.has_body_spec() <==> e.kind_spec() != 2)
    &&& vacant.ctx_spec() == e.ctx_spec()
    &&& vacant.src_spec() == e.src_spec()
    &&& vacant.src_tag_spec() == e.src_tag_spec()
    &&& vacant.backtrace_spec() == e.own_backtrace_spec()
    &&& vacant.has_body_spec() ==> vacant.store_kind_spec() == e.store_kind_spec()
    &&& vacant.has_body_spec() ==> store_accepts::<S>(vacant.store_kind_spec())
}

/// `r` is `e`, which holds no readable state, under another state type: same layout, state
/// text, context and source.
pub open spec fn kept_stateless<S: State, S2: State>(e: RawError<S>, r: RawError<S2>) -> bool {
    &&& r.kind_spec() == e.kind_spec()
    &&& r.meta_spec() == e.meta_spec()
    &&& r.state_text_spec() == e.state_text_spec()
    &&& r.ctx_spec() == e.ctx_spec()
    &&& r.src_spec() == e.src_spec()
}

/// An error that can carry a state of type `S`, a source and a context.
pub struct Error<S: State = Stateless>(pub(crate) RawError<S>);

impl<S: State> Error<S> {
    #[verifier::type_invariant]
    spec fn inv(self) -> bool {
        raw_wf(self.0)
    }

    /// The storage of the error.
    pub closed spec fn raw_spec(&self) -> RawError<S> {
        self.0
    }

    pub(crate) fn from_raw(raw: RawError<S>) -> (e: Error<S>)
        requires
            raw_wf(raw),
        ensures
            e.raw_spec() == raw,
    {
        Error(raw)
    }

    pub(crate) fn into_raw(self) -> (r: RawError<S>)
        ensures
            r == self.raw_spec(),
            raw_wf(r),
    {
        proof {
            use_type_invariant(&self);
        }
        self.0
    }

    pub(crate) fn as_raw(&self) -> (r: &RawError<S>)
        ensures
            *r == self.raw_spec(),
            raw_wf(*r),
    {
        proof {
            use_type_invariant(self);
        }
        &self.0
    }

    /// Creates an error from a context.
    pub fn from_context<C: Context>(ctx: C) -> (e: Error<S>)
        requires
            ctx.ready(),
        ensures
            exists|v: Value| #[trigger] ctx.gives(v) && made_from(e.raw_spec(), None, None, v),
    {
        let v = ctx.into_value();
        let e = Error(RawError::new(None, None::<NoSource>, v));
        assert(ctx.gives(v) && made_from(e.raw_spec(), None, None, v));
        e
    }

    /// Creates an error from a foreign error, which becomes its source.
    pub fn from_error(err: ForeignError) -> (e: Error<S>)
        ensures
            made_from(e.raw_spec(), None, Some(SourceNode::Foreign(err)), Value::Empty),
            e.raw_spec().kind_spec() == 1,
            e.raw_spec().present_spec() is None,
            e.raw_spec().state_text_spec() is None,
            e.raw_spec().ctx_spec() is None,
            e.raw_spec().src_spec() == Some(SourceNode::Foreign(err)),
    {
        Error(RawError::new(None, Some(SourceNode::Foreign(err)), Contextless::new().into_value()))
    }

    /// Creates an error from a boxed source error, which becomes its source as it is.
    pub fn from_boxed(boxed: SourceNode) -> (e: Error<S>)
        ensures
            made_from(e.raw_spec(), None, Some(boxed), Value::Empty),
            e.raw_spec().kind_spec() == 1,
            e.raw_spec().present_spec() is None,
            e.raw_spec().state_text_spec() is None,
            e.raw_spec().ctx_spec() is None,
            e.raw_spec().src_spec() == Some(boxed),
    {
        Error(RawError::new(None, Some(BoxedSource(boxed)), Contextless::new().into_value()))
    }

    /// Creates an error from a state.
    pub fn from_state(state: S) -> (e: Error<S>)
        requires
            S::tag_spec() != STATELESS_TAG,
        ensures
            e.raw_spec().present_spec() == Some(state),
            e.raw_spec().state_text_spec() == Some(state.debug_view()),
            e.raw_spec().ctx_spec() is None,
            e.raw_spec().src_spec() is None,
            e.raw_spec().src_tag_spec() is None,
            e.raw_spec().own_backtrace_spec() is None,
            e.raw_spec().kind_spec() == (if raw::align4::inlinable_spec::<S>() {
                2u8
            } else {
                1u8
            }),
    {
        let r = RawError::new(Some(state), None::<NoSource>, Contextless::new().into_value());
        proof {
            raw::state::lemma_store_kind_accepts_own_type::<S>();
        }
        Error(r)
    }

    /// Returns `true` if there is a readable state stored inside the error.
    pub fn has_state(&self) -> (r: bool)
        ensures
            r == self.raw_spec().present_spec() is Some,
    {
        self.as_raw().has_state()
    }

    /// A reference to the readable state, if any.
    pub fn state(&self) -> (r: Option<&S>)
        ensures
            match r {
                Some(s) => self.raw_spec().present_spec() == Some(*s),
                None => self.raw_spec().present_spec() is None,
            },
    {
        self.as_raw().state()
    }

    /// The context, if present.
    pub fn context(&self) -> (r: Option<ContextValue>)
        ensures
            match r {
                Some(c) => self.raw_spec().ctx_spec() == Some(c.view_pair()),
                None => self.raw_spec().ctx_spec() is None,
            },
    {
        self.as_raw().context()
    }

    /// Returns `true` if the context has type `tag`.
    pub fn has_context_of(&self, tag: u64) -> (r: bool)
        ensures
            r == (self.raw_spec().ctx_spec() matches Some(p) && p.0 == tag),
    {
        self.as_raw().downcast_context_ref(tag).is_some()
    }

    /// The context, if it has type `tag`.
    pub fn downcast_context_ref(&self, tag: u64) -> (r: Option<ContextValue>)
        ensures
            match r {
                Some(c) => self.raw_spec().ctx_spec() == Some(c.view_pair()) && c.type_tag == tag,
                None => !(self.raw_spec().ctx_spec() matches Some(p) && p.0 == tag),
            },
    {
        self.as_raw().downcast_context_ref(tag)
    }

    /// The context by mutable reference, if it has type `tag`. An error made from a literal
    /// alone is not allocated, and gives none.
    pub fn downcast_context_mut(&mut self, tag: u64) -> (r: Option<&mut ContextValue>)
        ensures
            r is Some <==> (old(self).raw_spec().kind_spec() == 1 && (old(self).raw_spec().ctx_spec() matches Some(p) && p.0 == tag)),
            r matches Some(c) ==> {
                &&& old(self).raw_spec().ctx_spec() == Some(c.view_pair())
                &&& final(self).raw_spec() == raw::with_context(old(self).raw_spec(), *final(c))
            },
            r is None ==> final(self).raw_spec() == old(self).raw_spec(),
    {
        proof {
            use_type_invariant(&*self);
        }
        self.0.downcast_context_mut(tag)
    }

    /// The source error the error reports, if any.
    pub fn source(&self) -> (r: Option<&SourceNode>)
        ensures
            match r {
                Some(n) => self.raw_spec().src_spec() matches Some(m) && *n == node_error_ref(m),
                None => self.raw_spec().src_spec() is None,
            },
    {
        self.as_raw().source()
    }

    /// Returns `true` if the source error the error reports is a foreign error of type `tag`.
    pub fn has_source_of(&self, tag: u64) -> (r: bool)
        ensures
            r == (self.raw_spec().src_spec() matches Some(m) && node_error_ref(m) matches SourceNode::Foreign(f) && f.type_tag == tag),
    {
        self.as_raw().downcast_source_ref(tag).is_some()
    }

    /// The source error the error reports, if it is a foreign error of type `tag`.
    pub fn downcast_source_ref(&self, tag: u64) -> (r: Option<&ForeignError>)
        ensures
            match r {
                Some(f) => self.raw_spec().src_spec() matches Some(m) && node_error_ref(m) == SourceNode::Foreign(*f) && f.type_tag == tag,
                None => !(self.raw_spec().src_spec() matches Some(m) && node_error_ref(m) matches SourceNode::Foreign(f) && f.type_tag == tag),
            },
    {
        self.as_raw().downcast_source_ref(tag)
    }

    /// The source error the error reports, by mutable reference, if it is a foreign error of
    /// type `tag`.
    pub fn downcast_source_mut(&mut self, tag: u64) -> (r: Option<&mut ForeignError>)
        ensures
            r is Some <==> (old(self).raw_spec().src_spec() matches Some(m) && (node_error_ref(m) matches SourceNode::Foreign(f) && f.type_tag == tag)),
            r matches Some(f) ==> (old(self).raw_spec().src_spec() matches Some(m) && {
                &&& node_error_ref(m) == SourceNode::Foreign(*f)
                &&& final(self).raw_spec() == raw::with_source(old(self).raw_spec(), raw::replace_error_ref(m, SourceNode::Foreign(*final(f))))
            }),
            r is None ==> final(self).raw_spec() == old(self).raw_spec(),
    {
        proof {
            use_type_invariant(&*self);
        }
        self.0.downcast_source_mut(tag)
    }

    /// Consumes the error and returns its source in boxed form, if any.
    pub fn into_source(self) -> (r: Option<SourceNode>)
        ensures
            r is Some <==> self.raw_spec().src_spec() is Some,
            r matches Some(n) ==> raw::boxed_form(self.raw_spec().src_spec()->Some_0, n),
            r matches Some(n) ==> (raw::boxes_faithfully(self.raw_spec().src_spec()->Some_0)
                ==> raw::node_display(n) == raw::node_display(self.raw_spec().src_spec()->Some_0)),
    {
        self.into_raw().into_source()
    }

    /// Converts into the form a boxed error takes (see [`RawError::into_boxed_error`]).
    pub fn into_boxed_error(self) -> (r: SourceNode)
        ensures
            raw::raw_boxed_form(self.raw_spec(), r),
            (self.raw_spec().has_info_spec() || (self.raw_spec().src_spec() matches Some(n)
                && raw::boxes_faithfully(n))) ==> raw::node_display(r) == self.raw_spec().display_spec(),
    {
        self.into_raw().into_boxed_error()
    }

    /// The error chain: the error itself if it has a state or a context, then its sources.
    pub fn chain(&self) -> (r: Vec<ChainLink>)
        ensures
            links_view(r@) == self.raw_spec().chain_spec(),
    {
        render::collect_chain(self.as_raw())
    }

    /// The root cause: the last error of the chain.
    pub fn root(&self) -> (r: Option<ChainLink>)
        ensures
            match r {
                Some(l) => self.raw_spec().chain_spec().len() > 0 && l.view_pair()
                    == self.raw_spec().chain_spec().last(),
                None => self.raw_spec().chain_spec().len() == 0,
            },
    {
        let mut links = self.chain();
        links.pop()
    }

    /// The first error of type `tag` in the chain.
    pub fn find(&self, tag: u64) -> (r: Option<ChainLink>)
        ensures
            match r {
                Some(l) => exists|i: int|
                    0 <= i < self.raw_spec().chain_spec().len() && self.raw_spec().chain_spec()[i]
                        == l.view_pair() && l.type_tag == tag && forall|j: int|
                        0 <= j < i ==> (#[trigger] self.raw_spec().chain_spec()[j]).0 != tag,
                None => forall|i: int|
                    0 <= i < self.raw_spec().chain_spec().len() ==> (
                    #[trigger] self.raw_spec().chain_spec()[i]).0 != tag,
            },
    {
        let links = self.chain();
        let ghost chain = self.raw_spec().chain_spec();
        let mut i: usize = 0;
        while i < links.len()
            invariant
                i <= links.len(),
                links_view(links@) == chain,
                chain == self.raw_spec().chain_spec(),
                forall|j: int| 0 <= j < i ==> (#[trigger] chain[j]).0 != tag,
            decreases links.len() - i,
        {
            assert(chain[i as int] == links@[i as int].view_pair());
            if links[i].type_tag == tag {
                let l = ChainLink { type_tag: links[i].type_tag, message: links[i].message.clone() };
                assert(chain[i as int] == l.view_pair());
                assert(0 <= i < self.raw_spec().chain_spec().len() && self.raw_spec().chain_spec()[i as int]
                    == l.view_pair() && l.type_tag == tag && forall|j: int|
                    0 <= j < i ==> (#[trigger] self.raw_spec().chain_spec()[j]).0 != tag);
                return Some(l);
            }
            i = i + 1;
        }
        None
    }

    /// The message of the error: `<state>": "<context>`, `<context>`, `<state>`, or the message
    /// of its source (as `{}` prints it).
    pub fn to_string(&self) -> (r: String)
        ensures
            r@ == self.raw_spec().display_spec(),
    {
        render::format_display(self.as_raw())
    }

    /// The message of the error followed by its chain of sources, each on a line of its own
    /// after `"  -> "`, with repeated messages left out (as `{:#}` prints it).
    pub fn to_string_alt(&self) -> (r: String)
        ensures
            r@ == chain_render(self.raw_spec().has_info_spec(), chain_texts(self.raw_spec().chain_spec())),
    {
        render::format_display_alt(self.as_raw())
    }

    /// The debug message of the error, as `{:?}` prints it: its whole chain, then its
    /// backtrace, if any.
    pub fn debug_string(&self) -> (r: String)
        ensures
            r@ == chain_render(self.raw_spec().has_info_spec(), chain_texts(self.raw_spec().chain_spec()))
                + match self.raw_spec().backtrace_spec() {
                Some(b) => render::backtrace_suffix(b),
                None => Seq::empty(),
            },
    {
        let backtrace = self.backtrace();
        match backtrace {
            Some(b) => render::format_debug(self.as_raw(), false, Some(b.as_str())),
            None => render::format_debug(self.as_raw(), false, None),
        }
    }

    /// The debug message of the error as `{:?}` prints it, or, with `alternate`, as `{:#?}`
    /// prints it: the struct form with its state, context, source and backtrace. `show_less`
    /// (the minus flag, as in `{:-?}`) leaves the backtrace out.
    pub fn debug_string_with(&self, alternate: bool, show_less: bool) -> (r: String)
        ensures
            alternate ==> r@ == pretty::raw_struct(self.raw_spec(), show_less),
            !alternate ==> r@ == chain_render(self.raw_spec().has_info_spec(), chain_texts(self.raw_spec().chain_spec()))
                + pretty::trailer(self.raw_spec().backtrace_spec(), show_less),
    {
        self.as_raw().debug_string(alternate, show_less)
    }

    /// Takes the state out, leaving a vacant error that can take a state again; without a
    /// readable state, hands the error back as a stateless one.
    pub fn extract_state(self) -> (r: Result<(S, Vacant<S>), Error<Stateless>>)
        ensures
            r is Ok <==> self.raw_spec().present_spec() is Some,
            r is Ok ==> S::tag_spec() != STATELESS_TAG,
            r matches Ok(p) ==> extracted(self.raw_spec(), p.0, p.1),
            r matches Err(e) ==> kept_stateless(self.raw_spec(), e.raw_spec()),
    {
        let raw = self.into_raw();
        match raw.extract_state() {
            Ok((s, v)) => Ok((s, Vacant::new(v))),
            Err(e) => Err(Error(e)),
        }
    }

    /// Converts to another state via a closure. When the new state has the same type and the
    /// error's storage can hold it, the state is replaced in place and the context and source
    /// stay; otherwise the rest of the error becomes the source of a new error with the new
    /// state. An error without a readable state keeps its parts under the new state type.
    pub fn map_state<S2: State, F: FnOnce(S) -> S2>(self, f: F) -> (r: Error<S2>)
        requires
            S2::tag_spec() != STATELESS_TAG,
            self.raw_spec().present_spec() matches Some(s) ==> f.requires((s,)),
        ensures
            self.raw_spec().present_spec() is None ==> {
                &&& r.raw_spec().present_spec() is None
                &&& r.raw_spec().kind_spec() == self.raw_spec().kind_spec()
                &&& r.raw_spec().state_text_spec() == self.raw_spec().state_text_spec()
                &&& r.raw_spec().ctx_spec() == self.raw_spec().ctx_spec()
                &&& r.raw_spec().src_spec() == self.raw_spec().src_spec()
            },
            self.raw_spec().present_spec() matches Some(s) ==> {
                &&& r.raw_spec().present_spec() matches Some(s2) && f.ensures((s,), s2)
                &&& if maps_in_place::<S, S2>(self.raw_spec()) {
                    kept_around(self.raw_spec(), r.raw_spec())
                } else {
                    derived_around(self.raw_spec(), r.raw_spec())
                }
            },
    {
        match self.extract_state() {
            Err(err) => err.with_phantom_state(),
            Ok((state, vacant)) => {
                let s2 = f(state);
                if S2::type_tag() == S::type_tag() {
                    match vacant.try_with_state(s2) {
                        Ok(e) => e,
                        Err((vacant, s2)) => vacant.derive_with_state(s2),
                    }
                } else {
                    vacant.derive_with_state(s2)
                }
            },
        }
    }

    /// Converts to another state via its `From` conversion (see [`Error::map_state`]).
    pub fn lift_state<S2: State + From<S>>(self) -> (r: Error<S2>)
        requires
            S2::tag_spec() != STATELESS_TAG,
        ensures
            self.raw_spec().present_spec() is None ==> {
                &&& r.raw_spec().present_spec() is None
                &&& r.raw_spec().kind_spec() == self.raw_spec().kind_spec()
                &&& r.raw_spec().state_text_spec() == self.raw_spec().state_text_spec()
                &&& r.raw_spec().ctx_spec() == self.raw_spec().ctx_spec()
                &&& r.raw_spec().src_spec() == self.raw_spec().src_spec()
            },
            self.raw_spec().present_spec() matches Some(s) ==> {
                &&& r.raw_spec().present_spec() matches Some(s2) && call_ensures(S2::from, (s,), s2)
                &&& if maps_in_place::<S, S2>(self.raw_spec()) {
                    kept_around(self.raw_spec(), r.raw_spec())
                } else {
                    derived_around(self.raw_spec(), r.raw_spec())
                }
            },
    {
        self.map_state(|s: S| -> (t: S2)
            ensures
                call_ensures(S2::from, (s,), t),
            { S2::from(s) })
    }

    /// A reference to the error's storage, which reports the error as a whole.
    pub fn erase_ref(&self) -> (r: &RawError<S>)
        ensures
            *r == self.raw_spec(),
    {
        self.as_raw()
    }

    /// The backtrace of the error, if any: the one kept with its own source, or else the first
    /// one along its source's chain.
    pub fn backtrace(&self) -> (r: Option<String>)
        ensures
            raw::opt_str(r) == self.raw_spec().backtrace_spec(),
    {
        self.as_raw().backtrace()
    }

    /// Erases the state type, keeping the message and the chain unchanged.
    pub fn erase_state(self) -> (r: Error<Stateless>)
        ensures
            r.raw_spec().present_spec() is None,
            r.raw_spec().display_spec() == self.raw_spec().display_spec(),
            r.raw_spec().chain_spec() == self.raw_spec().chain_spec(),
            self.raw_spec().kind_spec() != 2 ==> {
                &&& r.raw_spec().kind_spec() == self.raw_spec().kind_spec()
                &&& r.raw_spec().state_text_spec() == self.raw_spec().state_text_spec()
                &&& r.raw_spec().ctx_spec() == self.raw_spec().ctx_spec()
                &&& r.raw_spec().src_spec() == self.raw_spec().src_spec()
            },
            self.raw_spec().kind_spec() == 2 ==> {
                &&& r.raw_spec().state_text_spec() is None
                &&& r.raw_spec().ctx_spec() is None
                &&& r.raw_spec().src_spec() matches Some(SourceNode::Erratic(x)) && {
                    &&& x.kind_spec() == 2
                    &&& x.state_text_spec() == self.raw_spec().state_text_spec()
                }
            },
    {
        Error(self.into_raw().erase_state())
    }

    /// Erases the state type of the error, for use as the source of another error.
    pub fn erase(self) -> (r: ErasedRawError)
        ensures
            r.kind_spec() == self.raw_spec().kind_spec(),
            r.meta_spec() == self.raw_spec().meta_spec(),
            raw::erased_display(r) == self.raw_spec().display_spec(),
            raw::erased_chain(r) == self.raw_spec().chain_spec(),
            r.state_text_spec() == self.raw_spec().state_text_spec(),
            r.ctx_spec() == self.raw_spec().ctx_spec(),
            r.src_spec() == self.raw_spec().src_spec(),
    {
        self.into_raw().into_erased()
    }

    /// Consumes the error and returns its state, its context if it has type `ctx_tag`, and
    /// its source if it has type `src_tag`.
    pub fn into_parts(self, ctx_tag: u64, src_tag: u64) -> (r: (
        Option<S>,
        Option<ContextValue>,
        Option<SourceNode>,
    ))
        ensures
            parts_of(self.raw_spec(), ctx_tag, src_tag, r),
    {
        self.into_raw().into_parts(ctx_tag, src_tag)
    }
}

/// Working with the state of the error of a `Result`.
pub trait StateExt<T, S: State>: Sized {
    /// Extracts the state of the error, if it has one; an error without a readable state is
    /// propagated as a stateless one.
    fn extract_state(self) -> Result<Result<T, (S, Vacant<S>)>, Error<Stateless>>;

    /// Converts the error to another state via a closure (see [`Error::map_state`]).
    fn map_state<S2: State, F: FnOnce(S) -> S2>(self, f: F) -> Result<T, Error<S2>>
        requires
            S2::tag_spec() != STATELESS_TAG,
            forall|s: S| f.requires((s,)),
    ;

    /// Converts the error to another state via its `From` conversion.
    fn lift_state<S2: State + From<S>>(self) -> Result<T, Error<S2>>
        requires
            S2::tag_spec() != STATELESS_TAG,
    ;
}

impl<T, S: State> StateExt<T, S> for Result<T, Error<S>> {
    fn extract_state(self) -> (r: Result<Result<T, (S, Vacant<S>)>, Error<Stateless>>)
        ensures
            match self {
                Ok(v) => r == Ok::<Result<T, (S, Vacant<S>)>, Error<Stateless>>(Ok(v)),
                Err(e) => match r {
                    Ok(Ok(_)) => false,
                    Ok(Err(p)) => extracted(e.raw_spec(), p.0, p.1),
                    Err(x) => e.raw_spec().present_spec() is None && kept_stateless(e.raw_spec(), x.raw_spec()),
                },
            },
    {
        match self {
            Ok(v) => Ok(Ok(v)),
            Err(e) => match e.extract_state() {
                Ok(p) => Ok(Err(p)),
                Err(x) => Err(x),
            },
        }
    }

    fn map_state<S2: State, F: FnOnce(S) -> S2>(self, f: F) -> (r: Result<T, Error<S2>>)
        ensures
            match self {
                Ok(v) => r == Ok::<T, Error<S2>>(v),
                Err(e) => r matches Err(x) && {
                    &&& e.raw_spec().present_spec() is None ==> {
                        &&& x.raw_spec().present_spec() is None
                        &&& kept_stateless(e.raw_spec(), x.raw_spec())
                    }
                    &&& e.raw_spec().present_spec() matches Some(s) ==> {
                        &&& x.raw_spec().present_spec() matches Some(s2) && f.ensures((s,), s2)
                        &&& if maps_in_place::<S, S2>(e.raw_spec()) {
                            kept_around(e.raw_spec(), x.raw_spec())
                        } else {
                            derived_around(e.raw_spec(), x.raw_spec())
                        }
                    }
                },
            },
    {
        match self {
            Ok(v) => Ok(v),
            Err(e) => Err(e.map_state(f)),
        }
    }

    fn lift_state<S2: State + From<S>>(self) -> (r: Result<T, Error<S2>>)
        ensures
            match self {
                Ok(v) => r == Ok::<T, Error<S2>>(v),
                Err(e) => r matches Err(x) && {
                    &&& (x.raw_spec().present_spec() is Some <==> e.raw_spec().present_spec() is Some)
                    &&& e.raw_spec().present_spec() is None ==> kept_stateless(e.raw_spec(), x.raw_spec())
                    &&& e.raw_spec().present_spec() matches Some(s) ==> {
                        &&& x.raw_spec().present_spec() matches Some(s2) && call_ensures(S2::from, (s,), s2)
                        &&& if maps_in_place::<S, S2>(e.raw_spec()) {
                            kept_around(e.raw_spec(), x.raw_spec())
                        } else {
                            derived_around(e.raw_spec(), x.raw_spec())
                        }
                    }
                },
            },
    {
        match self {
            Ok(v) => Ok(v),
            Err(e) => Err(e.lift_state()),
        }
    }
}

impl Error<Stateless> {
    /// Helper for type inference when the state is not needed.
    pub fn stateless(self) -> (r: Error<Stateless>)
        ensures
            r == self,
            r.raw_spec().present_spec() is None,
    {
        proof {
            use_type_invariant(&self);
        }
        self
    }

    /// Converts to an error of another state type, without storing a state.
    pub fn with_phantom_state<S: State>(self) -> (r: Error<S>)
        ensures
            r.raw_spec().present_spec() is None,
            r.raw_spec().kind_spec() == self.raw_spec().kind_spec(),
            r.raw_spec().state_text_spec() == self.raw_spec().state_text_spec(),
            r.raw_spec().ctx_spec() == self.raw_spec().ctx_spec(),
            r.raw_spec().src_spec() == self.raw_spec().src_spec(),
    {
        let raw = self.into_raw();
        Error(raw.with_phantom_state())
    }
}

impl<S: State> core::ops::Deref for Error<S> {
    type Target = RawError<S>;

    fn deref(&self) -> (r: &RawError<S>)
        ensures
            *r == self.raw_spec(),
    {
        self.as_raw()
    }
}

} // verus!
