//! The storage of an error: a literal context, an inline state, or an allocated body with a
//! state slot, a source and a context.
pub mod align4;
pub mod source;
pub mod state;

use vstd::prelude::*;

use crate::context::{ContextValue, Value};
use crate::raw::align4::{inlinable_spec, Align4PtrCompat, ErasedAlign4PtrCompat, Metadata};
use crate::backtrace::{chain_backtrace, WithBacktrace};
use crate::raw::source::{source_backtrace, source_bare, source_container, source_node, BoxedSource, NoSource, Source, WithBacktraceSource};
use crate::raw::state::{store_accepts, store_kind_for, Metastate, Ministate, Store, StoreKind};
use crate::rtti::{BOXED_MESSAGE_TAG, ERRATIC_TAG, STR_TAG};
pub use crate::rtti::NO_CONTEXT_TAG;
use crate::state::{ErasedState, State, Stateless};

verus! {

/// An error of another kind than this library's, as a source: its type tag, its message, and
/// its own source, if any.
pub struct ForeignError {
    pub type_tag: u64,
    pub message: String,
    pub source: Option<Box<SourceNode>>,
    /// The text its `Debug` prints in the alternate form (`{:#?}`).
    pub debug: String,
}

/// A source error: either a foreign error or an error of this library with its state erased.
pub enum SourceNode {
    Foreign(ForeignError),
    Erratic(Box<ErasedRawError>),
}

/// The body of an error made from a string literal alone.
pub struct ConstBody {
    pub context: &'static str,
}

/// The allocated body of an error.
pub struct DynBody<S> {
    pub state: Store<S>,
    pub store_kind: StoreKind,
    pub source: Option<SourceNode>,
    /// The type tag the source is found again under when the error is taken apart: that of the
    /// container it was given in.
    pub source_tag: Option<u64>,
    pub context: Option<ContextValue>,
    /// The backtrace captured when the source was wrapped, if any. It is not a layer of the
    /// chain: only a search for a backtrace sees it.
    pub backtrace: Option<String>,
}

/// A placeholder for the absence of a context: a context of this type counts as none.
pub struct NoContext;

impl NoContext {
    /// The message of the placeholder: empty.
    pub fn to_string(&self) -> (r: String)
        ensures
            r@ == Seq::<char>::empty(),
    {
        String::new()
    }
}

/// The storage of an error with state type `S`.
pub enum RawError<S> {
    /// A literal context and nothing else.
    Const(ConstBody),
    /// An allocated body.
    Boxed(Box<DynBody<S>>),
    /// A state stored inline, and nothing else.
    Inline(Align4PtrCompat<S>),
}

/// The storage of an error whose state type has been erased.
pub struct ErasedRawError {
    pub inner: Inner,
}

/// The variants of an erased error's storage.
pub enum Inner {
    Const(ConstBody),
    Boxed(Box<DynBody<ErasedState>>),
    Inline(ErasedAlign4PtrCompat),
}

/// The text a string holds, if any.
pub open spec fn opt_str(o: Option<String>) -> Option<Seq<char>> {
    match o {
        Some(t) => Some(t@),
        None => None,
    }
}

/// The text of a context, if any.
pub open spec fn ctx_text(c: Option<(u64, Seq<char>)>) -> Option<Seq<char>> {
    match c {
        Some(p) => Some(p.1),
        None => None,
    }
}

/// The message an error builds from its own state and context:
/// `<state>": "<context>`, `<context>` or `<state>`.
pub open spec fn head_text(state: Option<Seq<char>>, ctx: Option<Seq<char>>) -> Option<Seq<char>> {
    match (state, ctx) {
        (None, None) => None,
        (None, Some(c)) => Some(c),
        (Some(s), None) => Some(s),
        (Some(s), Some(c)) => Some(s + seq![':', ' '] + c),
    }
}

/// The message of a source error.
pub open spec fn node_display(n: SourceNode) -> Seq<char>
    decreases n,
{
    match n {
        SourceNode::Foreign(f) => f.message@,
        SourceNode::Erratic(e) => erased_display(*e),
    }
}

/// The message of an erased error.
pub open spec fn erased_display(e: ErasedRawError) -> Seq<char>
    decreases e,
{
    match e.inner {
        Inner::Const(c) => c.context@,
        Inner::Inline(x) => x.text_spec(),
        Inner::Boxed(b) => match head_text(b.state.text_spec(), ctx_text(b.ctx_spec())) {
            Some(h) => h,
            None => match b.source {
                Some(n) => node_display(n),
                None => Seq::empty(),
            },
        },
    }
}

/// The error chain starting at a source error: for each error, its type tag and its message.
pub open spec fn node_chain(n: SourceNode) -> Seq<(u64, Seq<char>)>
    decreases n,
{
    match n {
        SourceNode::Foreign(f) => seq![(f.type_tag, f.message@)] + match f.source {
            Some(b) => node_chain(*b),
            None => Seq::empty(),
        },
        SourceNode::Erratic(e) => erased_chain(*e),
    }
}

/// The error chain of an erased error. An error that only wraps a source does not appear in
/// the chain: the chain starts at its source.
pub open spec fn erased_chain(e: ErasedRawError) -> Seq<(u64, Seq<char>)>
    decreases e,
{
    match e.inner {
        Inner::Const(c) => seq![(ERRATIC_TAG, c.context@)],
        Inner::Inline(x) => seq![(ERRATIC_TAG, x.text_spec())],
        Inner::Boxed(b) => {
            let rest = match b.source {
                Some(n) => node_chain(n),
                None => Seq::empty(),
            };
            if b.is_source_only_spec() {
                rest
            } else {
                seq![(ERRATIC_TAG, erased_display(e))] + rest
            }
        },
    }
}

impl<S: State> DynBody<S> {
    /// The context, as its type tag and text.
    pub open spec fn ctx_spec(&self) -> Option<(u64, Seq<char>)> {
        match self.context {
            Some(c) => Some(c.view_pair()),
            None => None,
        }
    }

    /// The body shows a message of its own (a state, present or frozen, or a context).
    pub open spec fn has_info_spec(&self) -> bool {
        self.state.text_spec() is Some || self.context is Some
    }

    /// The body only wraps a source.
    pub open spec fn is_source_only_spec(&self) -> bool {
        !self.has_info_spec() && self.source is Some
    }
}

impl<S: State> RawError<S> {
    /// Which of the three layouts is used: 0 for a literal, 1 for a body, 2 for an inline
    /// state.
    pub open spec fn kind_spec(&self) -> u8 {
        match self {
            RawError::Const(_) => 0,
            RawError::Boxed(_) => 1,
            RawError::Inline(_) => 2,
        }
    }

    /// The metastate of the error's state.
    pub open spec fn meta_spec(&self) -> Metastate {
        match self {
            RawError::Const(_) => Metastate::Empty,
            RawError::Boxed(b) => b.state.meta_spec(),
            RawError::Inline(_) => Metastate::Present,
        }
    }

    /// The state that can be read, if any.
    pub open spec fn present_spec(&self) -> Option<S> {
        match self {
            RawError::Const(_) => None,
            RawError::Boxed(b) => b.state.present_spec(),
            RawError::Inline(x) => Some(x.value_spec()),
        }
    }

    /// The debug text of the state, present or frozen, if any.
    pub open spec fn state_text_spec(&self) -> Option<Seq<char>> {
        match self {
            RawError::Const(_) => None,
            RawError::Boxed(b) => b.state.text_spec(),
            RawError::Inline(x) => Some(x.value_spec().debug_view()),
        }
    }

    /// The context, as its type tag and text.
    pub open spec fn ctx_spec(&self) -> Option<(u64, Seq<char>)> {
        match self {
            RawError::Const(c) => Some((STR_TAG, c.context@)),
            RawError::Boxed(b) => b.ctx_spec(),
            RawError::Inline(_) => None,
        }
    }

    /// The source, if any.
    /// The type tag the source is found again under, if any.
    pub open spec fn src_tag_spec(&self) -> Option<u64> {
        match self {
            RawError::Boxed(b) => b.source_tag,
            _ => None,
        }
    }

    /// The backtrace of the error: the one kept in its own body, or else the first one along
    /// its source's chain.
    pub open spec fn backtrace_spec(&self) -> Option<Seq<char>> {
        match self {
            RawError::Boxed(b) => match b.backtrace {
                Some(t) => Some(t@),
                None => chain_backtrace(b.source),
            },
            _ => None,
        }
    }

    /// The backtrace kept in the error's own body, if any.
    pub open spec fn own_backtrace_spec(&self) -> Option<Seq<char>> {
        match self {
            RawError::Boxed(b) => opt_str(b.backtrace),
            _ => None,
        }
    }

    pub open spec fn src_spec(&self) -> Option<SourceNode> {
        match self {
            RawError::Boxed(b) => b.source,
            _ => None,
        }
    }

    /// The kind of state store of an allocated body.
    pub open spec fn store_kind_spec(&self) -> StoreKind {
        match self {
            RawError::Boxed(b) => b.store_kind,
            _ => StoreKind::Never,
        }
    }

    /// The error shows a message of its own (a state, present or frozen, or a context).
    pub open spec fn has_info_spec(&self) -> bool {
        self.state_text_spec() is Some || self.ctx_spec() is Some
    }

    /// The error only wraps a source.
    pub open spec fn is_source_only_spec(&self) -> bool {
        !self.has_info_spec() && self.src_spec() is Some
    }

    /// The error holds nothing at all.
    pub open spec fn is_empty_spec(&self) -> bool {
        !self.has_info_spec() && self.src_spec() is None
    }

    /// The message of the error: `<state>": "<context>`, `<context>`, `<state>`, or, when it
    /// has neither, the message of its source.
    pub open spec fn display_spec(&self) -> Seq<char> {
        match head_text(self.state_text_spec(), ctx_text(self.ctx_spec())) {
            Some(h) => h,
            None => match self.src_spec() {
                Some(n) => node_display(n),
                None => Seq::empty(),
            },
        }
    }

    /// The error chain: the error itself if it shows a message of its own, then the chain of
    /// its source.
    pub open spec fn chain_spec(&self) -> Seq<(u64, Seq<char>)> {
        let rest = match self.src_spec() {
            Some(n) => node_chain(n),
            None => Seq::empty(),
        };
        if self.is_source_only_spec() {
            rest
        } else {
            seq![(ERRATIC_TAG, self.display_spec())] + rest
        }
    }
}

impl ErasedRawError {
    /// Which of the three layouts is used: 0 for a literal, 1 for a body, 2 for an inline
    /// state.
    pub open spec fn kind_spec(&self) -> u8 {
        match self.inner {
            Inner::Const(_) => 0,
            Inner::Boxed(_) => 1,
            Inner::Inline(_) => 2,
        }
    }

    /// The metastate of the error's state.
    pub open spec fn meta_spec(&self) -> Metastate {
        match self.inner {
            Inner::Const(_) => Metastate::Empty,
            Inner::Boxed(b) => b.state.meta_spec(),
            Inner::Inline(_) => Metastate::Present,
        }
    }

    /// The debug text of the state, present or frozen, if any.
    pub open spec fn state_text_spec(&self) -> Option<Seq<char>> {
        match self.inner {
            Inner::Const(_) => None,
            Inner::Boxed(b) => b.state.text_spec(),
            Inner::Inline(x) => Some(x.text_spec()),
        }
    }

    /// The context, as its type tag and text.
    pub open spec fn ctx_spec(&self) -> Option<(u64, Seq<char>)> {
        match self.inner {
            Inner::Const(c) => Some((STR_TAG, c.context@)),
            Inner::Boxed(b) => b.ctx_spec(),
            Inner::Inline(_) => None,
        }
    }

    /// The type tag the source is found again under, if any.
    pub open spec fn src_tag_spec(&self) -> Option<u64> {
        match self.inner {
            Inner::Boxed(b) => b.source_tag,
            _ => None,
        }
    }

    /// The source, if any.
    pub open spec fn src_spec(&self) -> Option<SourceNode> {
        match self.inner {
            Inner::Boxed(b) => b.source,
            _ => None,
        }
    }

    /// The kind of state store of an allocated body.
    pub open spec fn store_kind_spec(&self) -> StoreKind {
        match self.inner {
            Inner::Boxed(b) => b.store_kind,
            _ => StoreKind::Never,
        }
    }

    /// The error holds no state that could still be read, so it can stand as a stateless error.
    pub open spec fn is_stateless_spec(&self) -> bool {
        match self.inner {
            Inner::Const(_) => true,
            Inner::Boxed(b) => b.state.meta_spec() != Metastate::Present,
            Inner::Inline(_) => false,
        }
    }

    /// The error only wraps a source.
    pub open spec fn is_source_only_spec(&self) -> bool {
        match self.inner {
            Inner::Boxed(b) => b.is_source_only_spec(),
            _ => false,
        }
    }
}

/// The error that a source reports in a chain: an erased error that only wraps a source is
/// skipped in favour of that source.
pub open spec fn node_error_ref(n: SourceNode) -> SourceNode
    decreases n,
{
    match n {
        SourceNode::Foreign(_) => n,
        SourceNode::Erratic(e) => match e.inner {
            Inner::Boxed(b) => if b.is_source_only_spec() {
                match b.source {
                    Some(m) => node_error_ref(m),
                    None => n,
                }
            } else {
                n
            },
            _ => n,
        },
    }
}

impl<S: State> DynBody<S> {
    /// Erases the type of the body's state, keeping its debug text.
    pub fn erase(self) -> (r: DynBody<ErasedState>)
        ensures
            r.state.meta_spec() == self.state.meta_spec(),
            r.state.text_spec() == self.state.text_spec(),
            r.store_kind == self.store_kind,
            r.source == self.source,
            r.source_tag == self.source_tag,
            r.context == self.context,
            r.backtrace == self.backtrace,
    {
        let state = match self.state {
            Store::Empty => Store::Empty,
            Store::Present(s) => Store::Present(ErasedState::from_state(&s)),
            Store::Frozen(t) => Store::Frozen(t),
        };
        DynBody {
            state,
            store_kind: self.store_kind,
            source: self.source,
            source_tag: self.source_tag,
            context: self.context,
            backtrace: self.backtrace,
        }
    }

    /// Moves a body without a present state to another state type.
    pub fn retype<S2: State>(self) -> (r: DynBody<S2>)
        requires
            self.state.meta_spec() != Metastate::Present,
        ensures
            r.state.meta_spec() == self.state.meta_spec(),
            r.state.text_spec() == self.state.text_spec(),
            r.store_kind == self.store_kind,
            r.source == self.source,
            r.source_tag == self.source_tag,
            r.context == self.context,
            r.backtrace == self.backtrace,
    {
        DynBody {
            state: self.state.retype(),
            store_kind: self.store_kind,
            source: self.source,
            source_tag: self.source_tag,
            context: self.context,
            backtrace: self.backtrace,
        }
    }

    /// Returns `true` if the body only wraps a source.
    pub fn is_source_only(&self) -> (r: bool)
        ensures
            r == self.is_source_only_spec(),
        no_unwind
    {
        let has_state = match &self.state {
            Store::Empty => false,
            _ => true,
        };
        let has_context = match &self.context {
            Some(_) => true,
            None => false,
        };
        let has_source = match &self.source {
            Some(_) => true,
            None => false,
        };
        !has_state && !has_context && has_source
    }
}

/// The debug text of an optional state.
pub open spec fn opt_text<S: State>(s: Option<S>) -> Option<Seq<char>> {
    match s {
        Some(v) => Some(v.debug_view()),
        None => None,
    }
}

/// When an error is made of nothing but a source, and that source is an erased error that holds
/// no readable state, the source itself becomes the error: no layer is added.
pub open spec fn takes_over_source<S: State>(
    state: Option<S>,
    source: Option<SourceNode>,
    context: Value,
) -> bool {
    &&& state is None
    &&& context is Empty
    &&& source matches Some(SourceNode::Erratic(e)) && e.is_stateless_spec()
}

/// The layout a new error gets when it does not take over its source: a state alone is stored
/// inline when its type fits, a literal context alone needs no allocation, and everything else
/// is allocated.
pub open spec fn new_kind<S: State>(state: Option<S>, source: Option<SourceNode>, context: Value) -> u8 {
    if state is Some && context is Empty && source is None && inlinable_spec::<S>() {
        2
    } else if state is None && context is Literal && source is None {
        0
    } else {
        1
    }
}

/// `r` holds exactly the given parts, in the layout [`new_kind`] picks.
pub open spec fn made_from<S: State>(
    r: RawError<S>,
    state: Option<S>,
    source: Option<SourceNode>,
    context: Value,
) -> bool {
    &&& r.kind_spec() == new_kind(state, source, context)
    &&& r.present_spec() == state
    &&& r.state_text_spec() == opt_text(state)
    &&& r.meta_spec() == (if state is Some {
        Metastate::Present
    } else {
        Metastate::Empty
    })
    &&& r.ctx_spec() == context.pair()
    &&& r.src_spec() == source
    &&& r.kind_spec() == 1 ==> r.store_kind_spec() == (if state is Some {
        store_kind_for::<S>()
    } else {
        StoreKind::Never
    })
}

/// `e` with the context of its body replaced by `c`.
pub open spec fn with_context<S>(e: RawError<S>, c: ContextValue) -> RawError<S> {
    match e {
        RawError::Boxed(b) => RawError::Boxed(
            Box::new(DynBody { state: b.state, store_kind: b.store_kind, source: b.source, source_tag: b.source_tag, context: Some(c), backtrace: b.backtrace }),
        ),
        _ => e,
    }
}

/// `e` with its body's source replaced by `n`.
pub open spec fn with_source<S>(e: RawError<S>, n: SourceNode) -> RawError<S> {
    match e {
        RawError::Boxed(b) => RawError::Boxed(
            Box::new(DynBody { state: b.state, store_kind: b.store_kind, source: Some(n), source_tag: b.source_tag, context: b.context, backtrace: b.backtrace }),
        ),
        _ => e,
    }
}

/// `n` with the error it reports (see [`node_error_ref`]) replaced by `new`.
pub open spec fn replace_error_ref(n: SourceNode, new: SourceNode) -> SourceNode
    decreases n,
{
    match n {
        SourceNode::Foreign(_) => new,
        SourceNode::Erratic(e) => match e.inner {
            Inner::Boxed(b) => if b.is_source_only_spec() {
                match b.source {
                    Some(m) => SourceNode::Erratic(
                        Box::new(
                            ErasedRawError {
                                inner: Inner::Boxed(
                                    Box::new(
                                        DynBody {
                                            state: b.state,
                                            store_kind: b.store_kind,
                                            source: Some(replace_error_ref(m, new)),
                                            source_tag: b.source_tag,
                                            context: b.context,
                                            backtrace: b.backtrace,
                                        },
                                    ),
                                ),
                            },
                        ),
                    ),
                    None => new,
                }
            } else {
                new
            },
            _ => new,
        },
    }
}

/// Putting back the error a source reports leaves the source as it was.
pub proof fn lemma_replace_error_ref_same(n: SourceNode)
    ensures
        replace_error_ref(n, node_error_ref(n)) == n,
    decreases n,
{
    match n {
        SourceNode::Foreign(_) => {},
        SourceNode::Erratic(e) => match e.inner {
            Inner::Boxed(b) => if b.is_source_only_spec() {
                match b.source {
                    Some(m) => {
                        lemma_replace_error_ref_same(m);
                    },
                    None => {},
                }
            },
            _ => {},
        },
    }
}

/// `r` is what [`RawError::new`] makes of the parts, given as the source error itself: the
/// source when it takes over (see [`takes_over_source`]), else an error holding exactly the
/// parts (see [`made_from`]).
pub open spec fn new_contract<S: State>(
    r: RawError<S>,
    state: Option<S>,
    source: Option<SourceNode>,
    context: Value,
) -> bool {
    new_contract_in(
        r,
        state,
        source,
        context,
        true,
        match source {
            Some(n) => Some(node_tag(n)),
            None => None,
        },
    )
}

/// The type tag a body keeps for its source: that of the container, when there is a source.
pub open spec fn stored_tag(source: Option<SourceNode>, tag: Option<u64>) -> Option<u64> {
    if source is Some {
        tag
    } else {
        None
    }
}

/// `r` is what [`RawError::new`] makes of the parts, where `bare` says whether the source was
/// given as the error itself (only such a source can be taken over) and `tag` is the type tag
/// of the container it was given in.
pub open spec fn new_contract_in<S: State>(
    r: RawError<S>,
    state: Option<S>,
    source: Option<SourceNode>,
    context: Value,
    bare: bool,
    tag: Option<u64>,
) -> bool {
    &&& (bare && takes_over_source(state, source, context)) ==> same_parts(r, *source->Some_0->Erratic_0)
    &&& !(bare && takes_over_source(state, source, context)) ==> {
        &&& made_from(r, state, source, context)
        &&& r.src_tag_spec() == stored_tag(source, tag)
        &&& r.own_backtrace_spec() is None
    }
}

/// `r` has the same parts as the erased error `e`, and no readable state.
pub open spec fn same_parts<S: State>(r: RawError<S>, e: ErasedRawError) -> bool {
    &&& r.kind_spec() == e.kind_spec()
    &&& r.meta_spec() == e.meta_spec()
    &&& r.present_spec() is None
    &&& r.state_text_spec() == e.state_text_spec()
    &&& r.ctx_spec() == e.ctx_spec()
    &&& r.src_spec() == e.src_spec()
    &&& r.src_tag_spec() == e.src_tag_spec()
    &&& r.store_kind_spec() == e.store_kind_spec()
}

impl<S: State> RawError<S> {
    /// Reads the layout.
    pub fn kind(&self) -> (m: Metadata)
        ensures
            m.0 == self.kind_spec(),
            m.wf(),
    {
        match self {
            RawError::Const(_) => Metadata::_0(),
            RawError::Boxed(_) => Metadata::_1(),
            RawError::Inline(_) => Metadata::_2(),
        }
    }

    /// Makes a literal error when the context is a literal; otherwise gives the context back.
    pub fn try_new_const(context: Value) -> (r: Result<Self, Value>)
        ensures
            context is Literal <==> r is Ok,
            r matches Ok(e) ==> e.kind_spec() == 0 && e.ctx_spec() == context.pair(),
            r matches Err(c) ==> c == context,
    {
        match context {
            Value::Literal(l) => Ok(RawError::Const(ConstBody { context: l })),
            other => Err(other),
        }
    }

    /// Stores a state inline when its type fits; otherwise gives it back.
    pub fn try_new_inline(state: S) -> (r: Result<Self, S>)
        ensures
            r is Ok <==> inlinable_spec::<S>(),
            r matches Ok(e) ==> e.kind_spec() == 2 && e.present_spec() == Some(state),
            r matches Err(s) ==> s == state,
    {
        match Align4PtrCompat::new(Metadata::_2(), state) {
            Ok(c) => Ok(RawError::Inline(c)),
            Err(s) => Err(s),
        }
    }

    /// Returns `true` if the error only wraps a source.
    pub fn is_source_only(&self) -> (r: bool)
        ensures
            r == self.is_source_only_spec(),
    {
        match self {
            RawError::Boxed(b) => b.is_source_only(),
            _ => false,
        }
    }

    /// Allocates a body for the given parts. A state whose type fits a word goes into a
    /// word-sized store that other small states can reuse.
    pub fn new_boxed(
        state: Option<S>,
        source: Option<SourceNode>,
        context: Option<ContextValue>,
        backtrace: Option<String>,
        source_tag: Option<u64>,
    ) -> (r: Self)
        ensures
            r.kind_spec() == 1,
            r.own_backtrace_spec() == opt_str(backtrace),
            r.src_tag_spec() == source_tag,
            r.present_spec() == state,
            r.state_text_spec() == opt_text(state),
            r.meta_spec() == (if state is Some {
                Metastate::Present
            } else {
                Metastate::Empty
            }),
            r.src_spec() == source,
            r.ctx_spec() == (match context {
                Some(c) => Some(c.view_pair()),
                None => None,
            }),
            r.store_kind_spec() == (if state is Some {
                store_kind_for::<S>()
            } else {
                StoreKind::Never
            }),
    {
        match state {
            None => RawError::Boxed(
                Box::new(DynBody { state: Store::Empty, store_kind: StoreKind::Never, source, source_tag, context, backtrace }),
            ),
            Some(s) => match Ministate::try_new(s) {
                Ok(m) => RawError::Boxed(
                    Box::new(
                        DynBody {
                            state: Store::Present(m.into_inner()),
                            store_kind: StoreKind::Mini,
                            source,
                            source_tag,
                            context,
                            backtrace,
                        },
                    ),
                ),
                Err(s) => {
                    let tag = S::type_tag();
                    RawError::Boxed(
                        Box::new(
                            DynBody {
                                state: Store::Present(s),
                                store_kind: StoreKind::Typed(tag),
                                source,
                                source_tag,
                                context,
                                backtrace,
                            },
                        ),
                    )
                },
            },
        }
    }

    /// Makes an error from an optional state, an optional source and a context, choosing the
    /// cheapest layout that holds them. A source that comes with a backtrace is kept, with its
    /// backtrace, in an allocated body.
    pub fn new<E: Source>(state: Option<S>, source: Option<E>, context: Value) -> (r: Self)
        ensures
            source_backtrace(source) is None ==> new_contract_in(
                r,
                state,
                source_node(source),
                context,
                source_bare(source),
                source_container(source),
            ),
            source_backtrace(source) is Some ==> {
                &&& r.kind_spec() == 1
                &&& r.present_spec() == state
                &&& r.state_text_spec() == opt_text(state)
                &&& r.ctx_spec() == context.pair()
                &&& r.src_spec() == source_node(source)
                &&& r.own_backtrace_spec() == source_backtrace(source)
                &&& r.src_tag_spec() == stored_tag(source_node(source), source_container(source))
                &&& r.store_kind_spec() == (if state is Some {
                    store_kind_for::<S>()
                } else {
                    StoreKind::Never
                })
            },
    {
        let bare = match &source {
            Some(e) => e.is_bare(),
            None => true,
        };
        let container = match &source {
            Some(e) => e.container_tag(),
            None => None,
        };
        let (node, backtrace) = match source {
            Some(e) => e.into_stored(),
            None => (None, None),
        };
        let tag = if node.is_some() {
            container
        } else {
            None
        };
        match backtrace {
            Some(b) => Self::new_boxed(state, node, context.evaluate(), Some(b), tag),
            None => Self::new_untraced(state, node, context, bare, tag),
        }
    }

    /// Makes an error from an optional state, an optional source node and a context (see
    /// [`RawError::new`]); `bare` says whether the source was given as the error itself.
    fn new_untraced(
        state: Option<S>,
        source: Option<SourceNode>,
        context: Value,
        bare: bool,
        tag: Option<u64>,
    ) -> (r: Self)
        requires
            tag == stored_tag(source, tag),
        ensures
            new_contract_in(r, state, source, context, bare, tag),
    {
        let no_state = state.is_none();
        let no_context = !context.is_some();
        let source = match source {
            Some(SourceNode::Erratic(erased)) => {
                if bare && no_state && no_context {
                    match (*erased).try_into_stateless() {
                        Ok(err) => {
                            return err.with_phantom_state();
                        },
                        Err(erased) => Some(SourceNode::Erratic(Box::new(erased))),
                    }
                } else {
                    Some(SourceNode::Erratic(erased))
                }
            },
            other => other,
        };
        let has_source = source.is_some();
        let has_context = context.is_some();
        match state {
            Some(s) => {
                if !has_context && !has_source {
                    match Self::try_new_inline(s) {
                        Ok(r) => r,
                        Err(s) => Self::new_boxed(Some(s), source, context.evaluate(), None, tag),
                    }
                } else {
                    Self::new_boxed(Some(s), source, context.evaluate(), None, tag)
                }
            },
            None => {
                if has_context && !has_source {
                    match Self::try_new_const(context) {
                        Ok(r) => r,
                        Err(c) => Self::new_boxed(None, source, c.evaluate(), None, tag),
                    }
                } else {
                    Self::new_boxed(None, source, context.evaluate(), None, tag)
                }
            },
        }
    }
}

impl<S: State> RawError<S> {
    /// Makes an error from an optional state, an optional foreign source and a context.
    pub fn from_error(state: Option<S>, err: Option<ForeignError>, context: Value) -> (r: Self)
        ensures
            made_from(
                r,
                state,
                match err {
                    Some(f) => Some(SourceNode::Foreign(f)),
                    None => None,
                },
                context,
            ),
    {
        let source = match err {
            Some(f) => Some(SourceNode::Foreign(f)),
            None => None,
        };
        Self::new(state, source, context)
    }

    /// Makes an error from an optional state, an optional erased error of this library as its
    /// source, and a context. A source without a readable state is taken over when nothing
    /// else is given.
    pub fn from_erased(state: Option<S>, err: Option<ErasedRawError>, context: Value) -> (r: Self)
        ensures
            ({
                let source = match err {
                    Some(e) => Some(SourceNode::Erratic(Box::new(e))),
                    None => None,
                };
                &&& takes_over_source(state, source, context) ==> same_parts(r, err->Some_0)
                &&& !takes_over_source(state, source, context) ==> made_from(r, state, source, context)
            }),
    {
        let source = match err {
            Some(e) => Some(SourceNode::Erratic(Box::new(e))),
            None => None,
        };
        Self::new(state, source, context)
    }

    /// Makes an error from an optional state, an optional boxed source and a context. The box
    /// is kept as the source, as it is: an error of this library in it is not taken over.
    pub fn from_boxed(state: Option<S>, boxed: Option<SourceNode>, context: Value) -> (r: Self)
        ensures
            made_from(r, state, boxed, context),
    {
        let source = match boxed {
            Some(n) => Some(BoxedSource(n)),
            None => None,
        };
        Self::new(state, source, context)
    }

    /// Returns `true` if a state of type `S` alone is stored inline.
    pub fn is_state_inlinable() -> (r: bool)
        ensures
            r == inlinable_spec::<S>(),
    {
        Align4PtrCompat::<S>::is_inlinable()
    }

    /// Returns `true` if a state of type `S` fits a word-sized store.
    pub fn is_state_compact() -> (r: bool)
        ensures
            r == crate::raw::state::compact_spec::<S>(),
    {
        Ministate::<S>::is_state_compact()
    }

    /// The backtrace of the error: the one kept in its own body, or else the first one along
    /// its source's chain.
    pub fn backtrace(&self) -> (r: Option<String>)
        ensures
            opt_str(r) == self.backtrace_spec(),
    {
        match self {
            RawError::Boxed(b) => match &b.backtrace {
                Some(t) => Some(t.clone()),
                None => WithBacktrace::search_debug(b.source.as_ref()),
            },
            _ => None,
        }
    }
}

impl RawError<Stateless> {
    /// Moves a stateless error to another state type without storing a state.
    pub fn with_phantom_state<S2: State>(self) -> (r: RawError<S2>)
        requires
            self.meta_spec() != Metastate::Present,
        ensures
            r.kind_spec() == self.kind_spec(),
            r.meta_spec() == self.meta_spec(),
            r.present_spec() is None,
            r.state_text_spec() == self.state_text_spec(),
            r.ctx_spec() == self.ctx_spec(),
            r.src_spec() == self.src_spec(),
            r.src_tag_spec() == self.src_tag_spec(),
            r.store_kind_spec() == self.store_kind_spec(),
    {
        match self {
            RawError::Const(c) => RawError::Const(c),
            RawError::Boxed(b) => RawError::Boxed(Box::new((*b).retype())),
            RawError::Inline(_) => {
                assert(false);
                RawError::Const(ConstBody { context: "" })
            },
        }
    }
}

impl ErasedRawError {
    /// Turns the erased error into a stateless one, unless it holds a readable state.
    pub fn try_into_stateless(self) -> (r: Result<RawError<Stateless>, ErasedRawError>)
        ensures
            r is Ok <==> self.is_stateless_spec(),
            r matches Ok(e) ==> {
                &&& e.kind_spec() == self.kind_spec()
                &&& e.meta_spec() == self.meta_spec()
                &&& e.state_text_spec() == self.state_text_spec()
                &&& e.ctx_spec() == self.ctx_spec()
                &&& e.src_spec() == self.src_spec()
                &&& e.src_tag_spec() == self.src_tag_spec()
                &&& e.store_kind_spec() == self.store_kind_spec()
            },
            r matches Err(e) ==> e == self,
    {
        match self.inner {
            Inner::Const(c) => Ok(RawError::Const(c)),
            Inner::Boxed(b) => {
                if b.state.metastate() == Metastate::Present {
                    Err(ErasedRawError { inner: Inner::Boxed(b) })
                } else {
                    Ok(RawError::Boxed(Box::new((*b).retype())))
                }
            },
            Inner::Inline(x) => Err(ErasedRawError { inner: Inner::Inline(x) }),
        }
    }
}

/// The type tag under which a source is found: its own for a foreign error, and
/// [`ERRATIC_TAG`] for an error of this library.
pub open spec fn node_tag(n: SourceNode) -> u64 {
    match n {
        SourceNode::Foreign(f) => f.type_tag,
        SourceNode::Erratic(_) => ERRATIC_TAG,
    }
}

impl SourceNode {
    /// Returns the type tag under which the source is found.
    pub fn type_tag(&self) -> (t: u64)
        ensures
            t == node_tag(*self),
    {
        match self {
            SourceNode::Foreign(f) => f.type_tag,
            SourceNode::Erratic(_) => ERRATIC_TAG,
        }
    }

    /// The error this source reports: erased errors that only wrap a source are skipped.
    pub fn reported_error(&self) -> (r: &SourceNode)
        ensures
            *r == node_error_ref(*self),
        decreases self,
    {
        match self {
            SourceNode::Foreign(_) => self,
            SourceNode::Erratic(e) => match &e.inner {
                Inner::Boxed(b) => {
                    if b.is_source_only() {
                        match &b.source {
                            Some(m) => m.reported_error(),
                            None => self,
                        }
                    } else {
                        self
                    }
                },
                _ => self,
            },
        }
    }

    /// The error this source reports (see [`SourceNode::reported_error`]), by mutable reference, if
    /// it is a foreign error of type `tag`.
    pub fn downcast_foreign_mut(&mut self, tag: u64) -> (r: Option<&mut ForeignError>)
        ensures
            r is Some <==> (node_error_ref(*old(self)) matches SourceNode::Foreign(f) && f.type_tag == tag),
            r matches Some(f) ==> {
                &&& node_error_ref(*old(self)) == SourceNode::Foreign(*f)
                &&& *final(self) == replace_error_ref(*old(self), SourceNode::Foreign(*final(f)))
            },
            r is None ==> *final(self) == *old(self),
        decreases *old(self),
        no_unwind
    {
        match self {
            SourceNode::Foreign(f) => if f.type_tag == tag {
                Some(f)
            } else {
                None
            },
            SourceNode::Erratic(e) => match &mut e.inner {
                Inner::Boxed(b) => if b.is_source_only() {
                    match &mut b.source {
                        Some(m) => m.downcast_foreign_mut(tag),
                        None => None,
                    }
                } else {
                    None
                },
                _ => None,
            },
        }
    }

    /// Converts into the form a boxed source takes: an erased error without a readable state
    /// that only wraps a source gives way to that source, and one made of a literal or a
    /// frozen state gives way to a plain message.
    pub fn into_boxed_node(self) -> (r: SourceNode)
        ensures
            boxed_form(self, r),
            boxes_faithfully(self) ==> node_display(r) == node_display(self),
        decreases self, 0nat,
    {
        match self {
            SourceNode::Foreign(f) => SourceNode::Foreign(f),
            SourceNode::Erratic(e) => (*e).into_boxed(),
        }
    }

    /// Converts into a stateless error of this library, if the source is one.
    pub fn into_erratic(self) -> (r: Option<RawError<Stateless>>)
        ensures
            match self {
                SourceNode::Foreign(_) => r is None,
                SourceNode::Erratic(e) => (r is Some <==> e.is_stateless_spec()) && (r matches Some(x) ==> {
                    &&& x.kind_spec() == e.kind_spec()
                    &&& x.meta_spec() == e.meta_spec()
                    &&& x.state_text_spec() == e.state_text_spec()
                    &&& x.ctx_spec() == e.ctx_spec()
                    &&& x.src_spec() == e.src_spec()
                }),
            },
    {
        match self {
            SourceNode::Foreign(_) => None,
            SourceNode::Erratic(e) => match (*e).try_into_stateless() {
                Ok(x) => Some(x),
                Err(_) => None,
            },
        }
    }
}

impl ForeignError {
    /// Creates a foreign error without a source. Its debug text is its message in quotes, as a
    /// boxed message error prints it; [`ForeignError::with_debug`] sets another.
    pub fn new(type_tag: u64, message: &str) -> (r: ForeignError)
        ensures
            r.type_tag == type_tag,
            r.message@ == message@,
            r.source is None,
            r.debug@ == quoted(message@),
    {
        ForeignError { type_tag, message: String::from_str(message), source: None, debug: quote(message) }
    }

    /// Creates a foreign error with a source. Its debug text is its message in quotes.
    pub fn with_source(type_tag: u64, message: &str, source: SourceNode) -> (r: ForeignError)
        ensures
            r.type_tag == type_tag,
            r.message@ == message@,
            r.source == Some(Box::new(source)),
            r.debug@ == quoted(message@),
    {
        ForeignError {
            type_tag,
            message: String::from_str(message),
            source: Some(Box::new(source)),
            debug: quote(message),
        }
    }

    /// The error with the debug text `debug`, as its `Debug` prints it in the alternate form.
    pub fn with_debug(self, debug: &str) -> (r: ForeignError)
        ensures
            r.type_tag == self.type_tag,
            r.message == self.message,
            r.source == self.source,
            r.debug@ == debug@,
    {
        ForeignError { type_tag: self.type_tag, message: self.message, source: self.source, debug: String::from_str(debug) }
    }

    /// The message of the error, as its `Display` prints it.
    pub fn to_string(&self) -> (r: String)
        ensures
            r@ == self.message@,
    {
        self.message.clone()
    }
}

/// A text in double quotes.
pub open spec fn quoted(t: Seq<char>) -> Seq<char> {
    seq!['"'] + t + seq!['"']
}

/// Puts a text in double quotes.
pub fn quote(t: &str) -> (r: String)
    ensures
        r@ == quoted(t@),
{
    proof {
        reveal_strlit("\"");
    }
    let mut r = String::from_str("\"");
    r.append(t);
    r.append("\"");
    r
}

/// A plain message error, as boxed errors made from strings are.
fn message_node(text: String) -> (r: SourceNode)
    ensures
        r matches SourceNode::Foreign(f) && f.type_tag == BOXED_MESSAGE_TAG && f.message == text
            && f.source is None && f.debug@ == quoted(text@),
        node_display(r) == text@,
{
    let debug = quote(text.as_str());
    SourceNode::Foreign(ForeignError { type_tag: BOXED_MESSAGE_TAG, message: text, source: None, debug })
}

impl ErasedRawError {
    /// Erases the state type of an error, keeping the debug text of its state.
    pub fn from_typed<S: State>(value: RawError<S>) -> (r: ErasedRawError)
        ensures
            r.kind_spec() == value.kind_spec(),
            r.meta_spec() == value.meta_spec(),
            r.state_text_spec() == value.state_text_spec(),
            r.ctx_spec() == value.ctx_spec(),
            r.src_spec() == value.src_spec(),
            r.store_kind_spec() == value.store_kind_spec(),
            erased_display(r) == value.display_spec(),
            erased_chain(r) == value.chain_spec(),
    {
        let r = match value {
            RawError::Const(c) => ErasedRawError { inner: Inner::Const(c) },
            RawError::Boxed(b) => ErasedRawError { inner: Inner::Boxed(Box::new((*b).erase())) },
            RawError::Inline(x) => ErasedRawError { inner: Inner::Inline(x.erase()) },
        };
        proof {
            lemma_erased_views(r);
        }
        r
    }

    /// The source to report in place of this error, when it only wraps one.
    pub fn error_ref(&self) -> (r: Option<&SourceNode>)
        ensures
            self.is_source_only_spec() <==> r is Some,
            r matches Some(n) ==> Some(*n) == self.src_spec(),
    {
        match &self.inner {
            Inner::Boxed(b) => {
                if b.is_source_only() {
                    b.source.as_ref()
                } else {
                    None
                }
            },
            _ => None,
        }
    }

    /// The source to report in place of this error, by mutable reference, when it only wraps
    /// one; writing through it changes the source and nothing else.
    pub fn error_mut(&mut self) -> (r: Option<&mut SourceNode>)
        ensures
            old(self).is_source_only_spec() <==> r is Some,
            r matches Some(n) ==> {
                &&& Some(*n) == old(self).src_spec()
                &&& final(self).src_spec() == Some(*final(n))
                &&& final(self).kind_spec() == old(self).kind_spec()
                &&& final(self).meta_spec() == old(self).meta_spec()
                &&& final(self).state_text_spec() == old(self).state_text_spec()
                &&& final(self).ctx_spec() == old(self).ctx_spec()
                &&& final(self).store_kind_spec() == old(self).store_kind_spec()
            },
            r is None ==> *final(self) == *old(self),
        no_unwind
    {
        match &mut self.inner {
            Inner::Boxed(b) => {
                if b.is_source_only() {
                    match &mut b.source {
                        Some(n) => Some(n),
                        None => None,
                    }
                } else {
                    None
                }
            },
            _ => None,
        }
    }

    /// Converts into the form a boxed source takes (see [`SourceNode::into_boxed_node`]).
    pub fn into_boxed(self) -> (r: SourceNode)
        ensures
            boxed_form(SourceNode::Erratic(Box::new(self)), r),
            boxes_faithfully(SourceNode::Erratic(Box::new(self))) ==> node_display(r) == erased_display(self),
        decreases self, 1nat,
    {
        match self.inner {
            Inner::Const(c) => message_node(String::from_str(c.context)),
            Inner::Inline(x) => SourceNode::Erratic(Box::new(ErasedRawError { inner: Inner::Inline(x) })),
            Inner::Boxed(b) => {
                let present = b.state.metastate() == Metastate::Present;
                let has_info = b.state.metastate() != Metastate::Empty || b.context.is_some();
                if !present && !has_info {
                    let body = *b;
                    match body.source {
                        Some(n) => n.into_boxed_node(),
                        None => message_node(String::from_str("empty erratic error")),
                    }
                } else {
                    SourceNode::Erratic(Box::new(ErasedRawError { inner: Inner::Boxed(b) }))
                }
            },
        }
    }
}

/// Boxing the source keeps its message: every erased error without a readable state and
/// without a message of its own that boxing passes through wraps a source.
/// `r` is the form the error `e` takes once boxed: a literal or an inline state becomes a
/// plain message with its text; a body that holds no state and no context gives way to its
/// boxed source; any other body becomes an erased error of this library with the same parts.
pub open spec fn raw_boxed_form<S: State>(e: RawError<S>, r: SourceNode) -> bool {
    match e {
        RawError::Const(c) => is_message(r, c.context@),
        RawError::Inline(x) => is_message(r, x.value_spec().debug_view()),
        RawError::Boxed(b) => if b.state.meta_spec() == Metastate::Empty && b.context is None {
            match b.source {
                Some(m) => boxed_form(m, r),
                None => is_message(r, empty_message()),
            }
        } else {
            r matches SourceNode::Erratic(x) && {
                &&& x.kind_spec() == 1
                &&& x.meta_spec() == e.meta_spec()
                &&& x.state_text_spec() == e.state_text_spec()
                &&& x.ctx_spec() == e.ctx_spec()
                &&& x.src_spec() == e.src_spec()
            }
        },
    }
}

/// `r` is a plain message error with the text `t`, as boxing a string gives.
pub open spec fn is_message(r: SourceNode, t: Seq<char>) -> bool {
    r matches SourceNode::Foreign(f) && f.type_tag == BOXED_MESSAGE_TAG && f.message@ == t
        && f.source is None
}

/// The message boxing gives for an error of this library that holds nothing at all.
pub open spec fn empty_message() -> Seq<char> {
    "empty erratic error"@
}

/// `r` is the form the source `n` takes once boxed: a foreign error stays as it is; an erased
/// error made of a literal becomes a plain message; one whose body holds no state and no
/// context gives way to its source; any other erased error stays as it is.
pub open spec fn boxed_form(n: SourceNode, r: SourceNode) -> bool
    decreases n,
{
    match n {
        SourceNode::Foreign(_) => r == n,
        SourceNode::Erratic(e) => match e.inner {
            Inner::Const(c) => is_message(r, c.context@),
            Inner::Inline(_) => r == n,
            Inner::Boxed(b) => if b.state.meta_spec() == Metastate::Empty && b.context is None {
                match b.source {
                    Some(m) => boxed_form(m, r),
                    None => is_message(r, empty_message()),
                }
            } else {
                r == n
            },
        },
    }
}

pub open spec fn boxes_faithfully(n: SourceNode) -> bool
    decreases n,
{
    match n {
        SourceNode::Foreign(_) => true,
        SourceNode::Erratic(e) => match e.inner {
            Inner::Boxed(b) => if b.state.meta_spec() != Metastate::Present && !b.has_info_spec() {
                match b.source {
                    Some(m) => boxes_faithfully(m),
                    None => false,
                }
            } else {
                true
            },
            _ => true,
        },
    }
}

/// The message and the chain of an erased error follow from its parts.
pub proof fn lemma_erased_views(e: ErasedRawError)
    ensures
        erased_display(e) == match head_text(e.state_text_spec(), ctx_text(e.ctx_spec())) {
            Some(h) => h,
            None => match e.src_spec() {
                Some(n) => node_display(n),
                None => Seq::empty(),
            },
        },
        erased_chain(e) == ({
            let rest = match e.src_spec() {
                Some(n) => node_chain(n),
                None => Seq::empty(),
            };
            if e.is_source_only_spec() {
                rest
            } else {
                seq![(ERRATIC_TAG, erased_display(e))] + rest
            }
        }),
{
    match e.inner {
        Inner::Const(c) => {
            assert(seq![(ERRATIC_TAG, c.context@)] + Seq::<(u64, Seq<char>)>::empty() =~= seq![
                (ERRATIC_TAG, c.context@),
            ]);
        },
        Inner::Inline(x) => {
            assert(seq![(ERRATIC_TAG, x.text_spec())] + Seq::<(u64, Seq<char>)>::empty() =~= seq![
                (ERRATIC_TAG, x.text_spec()),
            ]);
        },
        Inner::Boxed(b) => {},
    }
}

/// A vacant allocated body: an error whose state has been taken out.
pub struct RawVacant<S: State> {
    body: Box<DynBody<S>>,
}

impl<S: State> RawVacant<S> {
    #[verifier::type_invariant]
    spec fn inv(self) -> bool {
        self.body.state.meta_spec() == Metastate::Empty
    }

    pub closed spec fn ctx_spec(&self) -> Option<(u64, Seq<char>)> {
        self.body.ctx_spec()
    }

    pub closed spec fn src_spec(&self) -> Option<SourceNode> {
        self.body.source
    }

    pub closed spec fn store_kind_spec(&self) -> StoreKind {
        self.body.store_kind
    }

    /// The type tag the body's source is found again under, if any.
    pub closed spec fn src_tag_spec(&self) -> Option<u64> {
        self.body.source_tag
    }

    /// The backtrace kept in the body, if any.
    pub closed spec fn backtrace_spec(&self) -> Option<Seq<char>> {
        opt_str(self.body.backtrace)
    }

    /// Puts a state of the body's own type back into the body, in the same allocation.
    pub fn with_state(self, state: S) -> (r: RawError<S>)
        requires
            store_accepts::<S>(self.store_kind_spec()),
        ensures
            r.kind_spec() == 1,
            r.present_spec() == Some(state),
            r.state_text_spec() == Some(state.debug_view()),
            r.ctx_spec() == self.ctx_spec(),
            r.src_spec() == self.src_spec(),
            r.src_tag_spec() == self.src_tag_spec(),
            r.own_backtrace_spec() == self.backtrace_spec(),
            r.store_kind_spec() == self.store_kind_spec(),
    {
        let mut body = self.body;
        body.state = Store::Present(state);
        RawError::Boxed(body)
    }

    /// Stores a state of another type into the body, if its kind of store accepts that type
    /// (the body's parts move to a body for the new state type):
    /// a word-sized store takes any state that fits a word, a typed store takes its own type.
    pub fn try_with_state<S2: State>(self, state: S2) -> (r: Result<RawError<S2>, (Self, S2)>)
        ensures
            r is Ok <==> store_accepts::<S2>(self.store_kind_spec()),
            r matches Ok(e) ==> {
                &&& e.kind_spec() == 1
                &&& e.present_spec() == Some(state)
                &&& e.state_text_spec() == Some(state.debug_view())
                &&& e.ctx_spec() == self.ctx_spec()
                &&& e.src_spec() == self.src_spec()
                &&& e.src_tag_spec() == self.src_tag_spec()
                &&& e.own_backtrace_spec() == self.backtrace_spec()
                &&& e.store_kind_spec() == self.store_kind_spec()
            },
            r matches Err(p) ==> p.0 == self && p.1 == state,
    {
        if self.body.store_kind.accepts::<S2>() {
            let body = *self.body;
            Ok(
                RawError::Boxed(
                    Box::new(
                        DynBody {
                            state: Store::Present(state),
                            store_kind: body.store_kind,
                            source: body.source,
                            source_tag: body.source_tag,
                            context: body.context,
                            backtrace: body.backtrace,
                        },
                    ),
                ),
            )
        } else {
            Err((self, state))
        }
    }

    /// Turns the vacant body into a stateless error, unless nothing (no context, no source)
    /// is left in it.
    pub fn try_into_stateless(self) -> (r: Result<RawError<Stateless>, Self>)
        ensures
            r is Err <==> (self.ctx_spec() is None && self.src_spec() is None),
            r matches Ok(e) ==> {
                &&& e.kind_spec() == 1
                &&& e.meta_spec() == Metastate::Empty
                &&& e.ctx_spec() == self.ctx_spec()
                &&& e.src_spec() == self.src_spec()
                &&& e.store_kind_spec() == self.store_kind_spec()
            },
            r matches Err(v) ==> v == self,
    {
        proof {
            use_type_invariant(&self);
        }
        if self.body.context.is_none() && self.body.source.is_none() {
            Err(self)
        } else {
            Ok(RawError::Boxed(Box::new((*self.body).retype())))
        }
    }

    /// The vacant body as an erased error.
    fn into_erased_body(self) -> (r: ErasedRawError)
        ensures
            r.kind_spec() == 1,
            r.meta_spec() == Metastate::Empty,
            r.state_text_spec() is None,
            r.ctx_spec() == self.ctx_spec(),
            r.src_spec() == self.src_spec(),
            r.store_kind_spec() == self.store_kind_spec(),
            r.is_stateless_spec(),
    {
        proof {
            use_type_invariant(&self);
        }
        ErasedRawError { inner: Inner::Boxed(Box::new((*self.body).erase())) }
    }

    /// Makes a new error from the vacant body: the body becomes the source of the new error,
    /// unless nothing is left in it.
    pub fn derive<S2: State>(self, state: Option<S2>, context: Value) -> (r: RawError<S2>)
        ensures
            r.meta_spec() == Metastate::Present ==> r.present_spec() == state,
            (r.kind_spec() == 1 && r.meta_spec() == Metastate::Present) ==> r.store_kind_spec()
                == store_kind_for::<S2>(),
            (self.ctx_spec() is None && self.src_spec() is None && self.backtrace_spec() is None) ==> {
                &&& r.kind_spec() == new_kind(state, None, context)
                &&& r.present_spec() == state
                &&& r.state_text_spec() == opt_text(state)
                &&& r.ctx_spec() == context.pair()
                &&& r.src_spec() is None
            },
            (self.ctx_spec() is None && self.src_spec() is None && self.backtrace_spec() is Some) ==> {
                &&& r.kind_spec() == 1
                &&& r.present_spec() == state
                &&& r.state_text_spec() == opt_text(state)
                &&& r.ctx_spec() == context.pair()
                &&& r.src_spec() is None
                &&& r.own_backtrace_spec() == self.backtrace_spec()
            },
            !(self.ctx_spec() is None && self.src_spec() is None) ==> {
                if state is None && context is Empty {
                    &&& r.kind_spec() == 1
                    &&& r.meta_spec() == Metastate::Empty
                    &&& r.state_text_spec() is None
                    &&& r.ctx_spec() == self.ctx_spec()
                    &&& r.src_spec() == self.src_spec()
                } else {
                    &&& r.kind_spec() == 1
                    &&& r.present_spec() == state
                    &&& r.state_text_spec() == opt_text(state)
                    &&& r.ctx_spec() == context.pair()
                    &&& r.src_spec() matches Some(SourceNode::Erratic(e)) && {
                        &&& e.kind_spec() == 1
                        &&& e.meta_spec() == Metastate::Empty
                        &&& e.ctx_spec() == self.ctx_spec()
                        &&& e.src_spec() == self.src_spec()
                    }
                }
            },
    {
        if self.body.context.is_none() && self.body.source.is_none() {
            let body = *self.body;
            match body.backtrace {
                Some(t) => RawError::new(state, Some(WithBacktraceSource(WithBacktrace::new(None, t))), context),
                None => RawError::new(state, None::<NoSource>, context),
            }
        } else {
            let erased = self.into_erased_body();
            RawError::new(state, Some(SourceNode::Erratic(Box::new(erased))), context)
        }
    }
}

impl<S: State> RawError<S> {
    /// Erases the state type, keeping the message unchanged: a present state is frozen, an
    /// inline state moves into an erased source.
    pub fn erase_state(self) -> (r: RawError<Stateless>)
        ensures
            r.meta_spec() != Metastate::Present,
            r.display_spec() == self.display_spec(),
            r.chain_spec() == self.chain_spec(),
            self.kind_spec() != 2 ==> {
                &&& r.kind_spec() == self.kind_spec()
                &&& r.state_text_spec() == self.state_text_spec()
                &&& r.ctx_spec() == self.ctx_spec()
                &&& r.src_spec() == self.src_spec()
            },
            self.kind_spec() == 2 ==> {
                &&& r.kind_spec() == 1
                &&& r.state_text_spec() is None
                &&& r.ctx_spec() is None
                &&& r.src_spec() matches Some(SourceNode::Erratic(x)) && {
                    &&& x.kind_spec() == 2
                    &&& x.state_text_spec() == self.state_text_spec()
                }
            },
    {
        match self {
            RawError::Const(c) => RawError::Const(c),
            RawError::Inline(x) => {
                let erased = ErasedRawError::from_typed(RawError::Inline(x));
                proof {
                    let n = SourceNode::Erratic(Box::new(erased));
                    assert(node_display(n) == erased_display(erased));
                    assert(node_chain(n) == erased_chain(erased));
                }
                let r = RawError::<Stateless>::new(
                    None,
                    Some(SourceNode::Erratic(Box::new(erased))),
                    Value::Empty,
                );
                proof {
                    let n = SourceNode::Erratic(Box::new(erased));
                    assert(r.chain_spec() =~= node_chain(n));
                }
                r
            },
            RawError::Boxed(b) => {
                let mut body = *b;
                body.state.freeze();
                RawError::Boxed(Box::new(body.retype()))
            },
        }
    }

    /// Erases the state type of the error.
    pub fn into_erased(self) -> (r: ErasedRawError)
        ensures
            r.kind_spec() == self.kind_spec(),
            r.meta_spec() == self.meta_spec(),
            r.state_text_spec() == self.state_text_spec(),
            r.ctx_spec() == self.ctx_spec(),
            r.src_spec() == self.src_spec(),
            r.store_kind_spec() == self.store_kind_spec(),
            erased_display(r) == self.display_spec(),
            erased_chain(r) == self.chain_spec(),
    {
        ErasedRawError::from_typed(self)
    }

    /// Takes the state out. A body, with its parts and its kind of state store, stays (in its
    /// allocation) as a vacant body that can take a state again; an inline state leaves nothing behind. Without a readable state, the error is
    /// handed back as a stateless one.
    pub fn extract_state(self) -> (r: Result<(S, Option<RawVacant<S>>), RawError<Stateless>>)
        ensures
            r is Ok <==> self.present_spec() is Some,
            r matches Ok(p) ==> {
                &&& Some(p.0) == self.present_spec()
                &&& (p.1 is None <==> self.kind_spec() == 2)
                &&& p.1 matches Some(v) ==> {
                    &&& v.ctx_spec() == self.ctx_spec()
                    &&& v.src_spec() == self.src_spec()
                    &&& v.src_tag_spec() == self.src_tag_spec()
                    &&& v.backtrace_spec() == self.own_backtrace_spec()
                    &&& v.store_kind_spec() == self.store_kind_spec()
                }
            },
            r matches Err(e) ==> {
                &&& e.kind_spec() == self.kind_spec()
                &&& e.meta_spec() == self.meta_spec()
                &&& e.state_text_spec() == self.state_text_spec()
                &&& e.ctx_spec() == self.ctx_spec()
                &&& e.src_spec() == self.src_spec()
                &&& e.store_kind_spec() == self.store_kind_spec()
            },
    {
        match self {
            RawError::Const(c) => Err(RawError::Const(c)),
            RawError::Inline(x) => Ok((x.into_value(), None)),
            RawError::Boxed(mut b) => {
                match b.state.take() {
                    Some(s) => Ok((s, Some(RawVacant { body: b }))),
                    None => Err(RawError::Boxed(Box::new((*b).retype()))),
                }
            },
        }
    }

    /// Converts into the form a boxed error takes: a literal or an inline state become a plain
    /// message, a body that only wraps a source gives way to that source, and any other body
    /// stays an error of this library.
    pub fn into_boxed_error(self) -> (r: SourceNode)
        ensures
            raw_boxed_form(self, r),
            (self.has_info_spec() || (self.src_spec() matches Some(n) && boxes_faithfully(n)))
                ==> node_display(r) == self.display_spec(),
    {
        match self {
            RawError::Const(c) => message_node(String::from_str(c.context)),
            RawError::Inline(x) => {
                let text = x.borrow_value().debug_text();
                message_node(text)
            },
            RawError::Boxed(b) => {
                let body = *b;
                let has_state = body.state.metastate() != Metastate::Empty;
                let has_context = body.context.is_some();
                if !has_state && !has_context {
                    match body.source {
                        Some(n) => n.into_boxed_node(),
                        None => message_node(String::from_str("empty erratic error")),
                    }
                } else {
                    let erased = ErasedRawError { inner: Inner::Boxed(Box::new(body.erase())) };
                    proof {
                        lemma_erased_views(erased);
                    }
                    SourceNode::Erratic(Box::new(erased))
                }
            },
        }
    }

    /// Gives back the source error, in its boxed form, if any.
    pub fn into_source(self) -> (r: Option<SourceNode>)
        ensures
            r is Some <==> self.src_spec() is Some,
            r matches Some(n) ==> boxed_form(self.src_spec()->Some_0, n),
            r matches Some(n) ==> (boxes_faithfully(self.src_spec()->Some_0) ==> node_display(n)
                == node_display(self.src_spec()->Some_0)),
    {
        match self {
            RawError::Boxed(b) => match (*b).source {
                Some(n) => Some(n.into_boxed_node()),
                None => None,
            },
            _ => None,
        }
    }

    /// Takes the error apart into its state, its context if it has type `ctx_tag`, and its
    /// source if its container has type `src_tag`.
    pub fn into_parts(self, ctx_tag: u64, src_tag: u64) -> (r: (Option<S>, Option<ContextValue>, Option<SourceNode>))
        ensures
            r.0 == self.present_spec(),
            match r.1 {
                Some(c) => self.ctx_spec() == Some(c.view_pair()) && c.type_tag == ctx_tag,
                None => !(self.ctx_spec() matches Some(p) && p.0 == ctx_tag),
            },
            r.2 == (match self.src_spec() {
                Some(n) => if self.src_tag_spec() == Some(src_tag) {
                    Some(n)
                } else {
                    None
                },
                None => None,
            }),
    {
        match self {
            RawError::Const(c) => {
                if ctx_tag == STR_TAG {
                    (None, Some(ContextValue::new(STR_TAG, c.context)), None)
                } else {
                    (None, None, None)
                }
            },
            RawError::Inline(x) => (Some(x.into_value()), None, None),
            RawError::Boxed(b) => {
                let mut body = *b;
                let state = body.state.take();
                let context = match body.context {
                    Some(c) => if c.type_tag == ctx_tag {
                        Some(c)
                    } else {
                        None
                    },
                    None => None,
                };
                let source = match body.source {
                    Some(n) => if body.source_tag == Some(src_tag) {
                        Some(n)
                    } else {
                        None
                    },
                    None => None,
                };
                (state, context, source)
            },
        }
    }

    /// Returns `true` if the error holds a readable state.
    pub fn has_state(&self) -> (r: bool)
        ensures
            r == self.present_spec() is Some,
    {
        self.state().is_some()
    }

    /// A reference to the readable state, if any.
    pub fn state(&self) -> (r: Option<&S>)
        ensures
            match r {
                Some(s) => self.present_spec() == Some(*s),
                None => self.present_spec() is None,
            },
    {
        match self {
            RawError::Const(_) => None,
            RawError::Boxed(b) => b.state.get(),
            RawError::Inline(x) => Some(x.borrow_value()),
        }
    }

    /// The context, if any.
    pub fn context(&self) -> (r: Option<ContextValue>)
        ensures
            match r {
                Some(c) => self.ctx_spec() == Some(c.view_pair()),
                None => self.ctx_spec() is None,
            },
    {
        match self {
            RawError::Const(c) => Some(ContextValue::new(STR_TAG, c.context)),
            RawError::Boxed(b) => match &b.context {
                Some(c) => Some(ContextValue { type_tag: c.type_tag, text: c.text.clone() }),
                None => None,
            },
            RawError::Inline(_) => None,
        }
    }

    /// The context, if it has type `tag`.
    pub fn downcast_context_ref(&self, tag: u64) -> (r: Option<ContextValue>)
        ensures
            match r {
                Some(c) => self.ctx_spec() == Some(c.view_pair()) && c.type_tag == tag,
                None => !(self.ctx_spec() matches Some(p) && p.0 == tag),
            },
    {
        match self.context() {
            Some(c) => if c.type_tag == tag {
                Some(c)
            } else {
                None
            },
            None => None,
        }
    }

    /// The context by mutable reference, if it has type `tag`. An error made from a literal
    /// alone is not allocated, and gives none.
    pub fn downcast_context_mut(&mut self, tag: u64) -> (r: Option<&mut ContextValue>)
        ensures
            r is Some <==> (old(self).kind_spec() == 1 && (old(self).ctx_spec() matches Some(p) && p.0 == tag)),
            r matches Some(c) ==> {
                &&& old(self).ctx_spec() == Some(c.view_pair())
                &&& *final(self) == with_context(*old(self), *final(c))
            },
            r is None ==> *final(self) == *old(self),
        no_unwind
    {
        match self {
            RawError::Boxed(b) => match &mut b.context {
                Some(c) => if c.type_tag == tag {
                    Some(c)
                } else {
                    None
                },
                None => None,
            },
            _ => None,
        }
    }

    /// The stored source, by mutable reference, if any.
    pub fn source_mut(&mut self) -> (r: Option<&mut SourceNode>)
        ensures
            r is Some <==> old(self).src_spec() is Some,
            r matches Some(n) ==> {
                &&& old(self).src_spec() == Some(*n)
                &&& *final(self) == with_source(*old(self), *final(n))
            },
            r is None ==> *final(self) == *old(self),
        no_unwind
    {
        match self {
            RawError::Boxed(b) => match &mut b.source {
                Some(n) => Some(n),
                None => None,
            },
            _ => None,
        }
    }

    /// The source error this error reports, by mutable reference, if it is a foreign error of
    /// type `tag`.
    pub fn downcast_source_mut(&mut self, tag: u64) -> (r: Option<&mut ForeignError>)
        ensures
            r is Some <==> (old(self).src_spec() matches Some(m) && (node_error_ref(m) matches SourceNode::Foreign(f) && f.type_tag == tag)),
            r matches Some(f) ==> (old(self).src_spec() matches Some(m) && {
                &&& node_error_ref(m) == SourceNode::Foreign(*f)
                &&& *final(self) == with_source(*old(self), replace_error_ref(m, SourceNode::Foreign(*final(f))))
            }),
            r is None ==> *final(self) == *old(self),
        no_unwind
    {
        match self {
            RawError::Boxed(b) => match &mut b.source {
                Some(n) => n.downcast_foreign_mut(tag),
                None => None,
            },
            _ => None,
        }
    }

    /// The source error this error reports, if any.
    pub fn source(&self) -> (r: Option<&SourceNode>)
        ensures
            match r {
                Some(n) => self.src_spec() matches Some(m) && *n == node_error_ref(m),
                None => self.src_spec() is None,
            },
    {
        match self {
            RawError::Boxed(b) => match &b.source {
                Some(n) => Some(n.reported_error()),
                None => None,
            },
            _ => None,
        }
    }

    /// The source error this error reports, if it is a foreign error of type `tag`.
    pub fn downcast_source_ref(&self, tag: u64) -> (r: Option<&ForeignError>)
        ensures
            match r {
                Some(f) => self.src_spec() matches Some(m) && node_error_ref(m) == SourceNode::Foreign(*f) && f.type_tag == tag,
                None => !(self.src_spec() matches Some(m) && node_error_ref(m) matches SourceNode::Foreign(f) && f.type_tag == tag),
            },
    {
        match self.source() {
            Some(SourceNode::Foreign(f)) => if f.type_tag == tag {
                Some(f)
            } else {
                None
            },
            _ => None,
        }
    }
}

} // verus!
