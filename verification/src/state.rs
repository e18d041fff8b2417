//! States carried by errors.
use vstd::prelude::*;

use crate::context::Value;
use crate::decimal::{decimal_digits, decimal_text, signed_text, unsigned_text};
use crate::raw::state::{compact_spec, store_accepts, Metastate, Ministate, StoreKind};
use crate::raw::source::NoSource;
use crate::raw::{ForeignError, RawError, RawVacant, SourceNode};
use crate::rtti::STATELESS_TAG;
use crate::Error;

verus! {

/// A value that can be stored as the state of an error.
///
/// A state is rendered by its debug text, and its type is identified by a tag
/// (see [`crate::rtti`]).
pub trait State: Sized {
    /// The debug text of the state.
    spec fn debug_view(&self) -> Seq<char>;

    /// The tag of the state's type.
    spec fn tag_spec() -> u64;

    /// Renders the state as its debug text.
    fn debug_text(&self) -> (r: String)
        ensures
            r@ == self.debug_view(),
    ;

    /// Returns the tag of the state's type.
    fn type_tag() -> (t: u64)
        ensures
            t == Self::tag_spec(),
    ;
}

/// Marker type indicating no meaningful state.
///
/// It has no public constructor, so errors of this state type never hold a state.
pub struct Stateless {
    _priv: (),
}

impl State for Stateless {
    open spec fn debug_view(&self) -> Seq<char> {
        Seq::empty()
    }

    open spec fn tag_spec() -> u64 {
        crate::rtti::STATELESS_TAG
    }

    fn debug_text(&self) -> (r: String) {
        String::new()
    }

    fn type_tag() -> (t: u64) {
        crate::rtti::STATELESS_TAG
    }
}

/// The state of an error whose original state type has been erased: only its debug text and
/// the tag of the original type are kept.
pub struct ErasedState {
    pub text: String,
    pub tag: u64,
}

impl ErasedState {
    pub open spec fn text_view(&self) -> Seq<char> {
        self.text@
    }

    pub open spec fn original_tag(&self) -> u64 {
        self.tag
    }

    /// Erases a typed state.
    pub fn from_state<S: State>(state: &S) -> (r: ErasedState)
        ensures
            r.text_view() == state.debug_view(),
            r.original_tag() == S::tag_spec(),
    {
        ErasedState { text: state.debug_text(), tag: S::type_tag() }
    }
}

impl State for ErasedState {
    open spec fn debug_view(&self) -> Seq<char> {
        self.text@
    }

    open spec fn tag_spec() -> u64 {
        crate::rtti::ERASED_STATE_TAG
    }

    fn debug_text(&self) -> (r: String) {
        self.text.clone()
    }

    fn type_tag() -> (t: u64) {
        crate::rtti::ERASED_STATE_TAG
    }
}

impl State for i8 {
    open spec fn debug_view(&self) -> Seq<char> {
        decimal_text(*self as int)
    }

    open spec fn tag_spec() -> u64 {
        crate::rtti::I8_TAG
    }

    fn debug_text(&self) -> (r: String) {
        signed_text(*self as i128)
    }

    fn type_tag() -> (t: u64) {
        crate::rtti::I8_TAG
    }
}

impl State for i16 {
    open spec fn debug_view(&self) -> Seq<char> {
        decimal_text(*self as int)
    }

    open spec fn tag_spec() -> u64 {
        crate::rtti::I16_TAG
    }

    fn debug_text(&self) -> (r: String) {
        signed_text(*self as i128)
    }

    fn type_tag() -> (t: u64) {
        crate::rtti::I16_TAG
    }
}

impl State for i32 {
    open spec fn debug_view(&self) -> Seq<char> {
        decimal_text(*self as int)
    }

    open spec fn tag_spec() -> u64 {
        crate::rtti::I32_TAG
    }

    fn debug_text(&self) -> (r: String) {
        signed_text(*self as i128)
    }

    fn type_tag() -> (t: u64) {
        crate::rtti::I32_TAG
    }
}

impl State for i64 {
    open spec fn debug_view(&self) -> Seq<char> {
        decimal_text(*self as int)
    }

    open spec fn tag_spec() -> u64 {
        crate::rtti::I64_TAG
    }

    fn debug_text(&self) -> (r: String) {
        signed_text(*self as i128)
    }

    fn type_tag() -> (t: u64) {
        crate::rtti::I64_TAG
    }
}

impl State for i128 {
    open spec fn debug_view(&self) -> Seq<char> {
        decimal_text(*self as int)
    }

    open spec fn tag_spec() -> u64 {
        crate::rtti::I128_TAG
    }

    fn debug_text(&self) -> (r: String) {
        signed_text(*self)
    }

    fn type_tag() -> (t: u64) {
        crate::rtti::I128_TAG
    }
}

impl State for u8 {
    open spec fn debug_view(&self) -> Seq<char> {
        decimal_digits(*self as nat)
    }

    open spec fn tag_spec() -> u64 {
        crate::rtti::U8_TAG
    }

    fn debug_text(&self) -> (r: String) {
        unsigned_text(*self as u128)
    }

    fn type_tag() -> (t: u64) {
        crate::rtti::U8_TAG
    }
}

impl State for u16 {
    open spec fn debug_view(&self) -> Seq<char> {
        decimal_digits(*self as nat)
    }

    open spec fn tag_spec() -> u64 {
        crate::rtti::U16_TAG
    }

    fn debug_text(&self) -> (r: String) {
        unsigned_text(*self as u128)
    }

    fn type_tag() -> (t: u64) {
        crate::rtti::U16_TAG
    }
}

impl State for u32 {
    open spec fn debug_view(&self) -> Seq<char> {
        decimal_digits(*self as nat)
    }

    open spec fn tag_spec() -> u64 {
        crate::rtti::U32_TAG
    }

    fn debug_text(&self) -> (r: String) {
        unsigned_text(*self as u128)
    }

    fn type_tag() -> (t: u64) {
        crate::rtti::U32_TAG
    }
}

impl State for u64 {
    open spec fn debug_view(&self) -> Seq<char> {
        decimal_digits(*self as nat)
    }

    open spec fn tag_spec() -> u64 {
        crate::rtti::U64_TAG
    }

    fn debug_text(&self) -> (r: String) {
        unsigned_text(*self as u128)
    }

    fn type_tag() -> (t: u64) {
        crate::rtti::U64_TAG
    }
}

impl State for u128 {
    open spec fn debug_view(&self) -> Seq<char> {
        decimal_digits(*self as nat)
    }

    open spec fn tag_spec() -> u64 {
        crate::rtti::U128_TAG
    }

    fn debug_text(&self) -> (r: String) {
        unsigned_text(*self)
    }

    fn type_tag() -> (t: u64) {
        crate::rtti::U128_TAG
    }
}

impl State for () {
    open spec fn debug_view(&self) -> Seq<char> {
        "()"@
    }

    open spec fn tag_spec() -> u64 {
        crate::rtti::UNIT_TAG
    }

    fn debug_text(&self) -> (r: String) {
        String::from_str("()")
    }

    fn type_tag() -> (t: u64) {
        crate::rtti::UNIT_TAG
    }
}

impl State for isize {
    open spec fn debug_view(&self) -> Seq<char> {
        decimal_text(*self as int)
    }

    open spec fn tag_spec() -> u64 {
        crate::rtti::ISIZE_TAG
    }

    fn debug_text(&self) -> (r: String) {
        signed_text(*self as i128)
    }

    fn type_tag() -> (t: u64) {
        crate::rtti::ISIZE_TAG
    }
}

impl State for usize {
    open spec fn debug_view(&self) -> Seq<char> {
        decimal_digits(*self as nat)
    }

    open spec fn tag_spec() -> u64 {
        crate::rtti::USIZE_TAG
    }

    fn debug_text(&self) -> (r: String) {
        unsigned_text(*self as u128)
    }

    fn type_tag() -> (t: u64) {
        crate::rtti::USIZE_TAG
    }
}

/// A store that accepts states of type `S` also accepts states of type `S2` when both fit a
/// word, or when both have the same type tag and the same size class.
pub proof fn lemma_store_reuse<S: State, S2: State>(kind: StoreKind)
    requires
        store_accepts::<S>(kind),
        (compact_spec::<S>() && compact_spec::<S2>()) || (S::tag_spec() == S2::tag_spec()
            && compact_spec::<S>() == compact_spec::<S2>()),
    ensures
        store_accepts::<S2>(kind),
{
}

/// The foreign error a reference points to, if any.
pub open spec fn deref_source(from: Option<&ForeignError>) -> Option<ForeignError> {
    match from {
        Some(f) => Some(*f),
        None => None,
    }
}

/// Something that produces the state of an error when the error is materialized, possibly from
/// the foreign error it wraps.
pub trait StateFn<S: State>: Sized {
    /// The state can be produced from `from`.
    spec fn ready(&self, from: Option<ForeignError>) -> bool;

    /// `s` is a state this may produce from `from`.
    spec fn produces(&self, from: Option<ForeignError>, s: Option<S>) -> bool;

    /// Produces the state.
    fn call(self, from: Option<&ForeignError>) -> (r: Option<S>)
        requires
            self.ready(deref_source(from)),
        ensures
            self.produces(deref_source(from), r),
    ;
}

/// A state given as it is (or none).
pub struct Identity<S: State>(Option<S>);

impl<S: State> Identity<S> {
    /// The state given.
    pub closed spec fn state_spec(&self) -> Option<S> {
        self.0
    }

    /// No state.
    pub fn phantom() -> (r: Identity<S>)
        ensures
            r.state_spec() is None,
    {
        Identity(None)
    }

    /// The state `state`.
    pub fn new(state: S) -> (r: Identity<S>)
        ensures
            r.state_spec() == Some(state),
    {
        Identity(Some(state))
    }
}

impl<S: State> StateFn<S> for Identity<S> {
    open spec fn ready(&self, from: Option<ForeignError>) -> bool {
        true
    }

    open spec fn produces(&self, from: Option<ForeignError>, s: Option<S>) -> bool {
        s == self.state_spec()
    }

    fn call(self, from: Option<&ForeignError>) -> (r: Option<S>) {
        self.0
    }
}

/// A state made by a closure when the error is materialized.
pub struct Lazy<F> {
    f: F,
}

impl<F> Lazy<F> {
    /// The closure.
    pub closed spec fn fn_spec(&self) -> F {
        self.f
    }

    /// Wraps the closure, which is not called yet.
    pub fn new(f: F) -> (r: Lazy<F>)
        ensures
            r.fn_spec() == f,
    {
        Lazy { f }
    }
}

impl<S: State, F: FnOnce() -> S> StateFn<S> for Lazy<F> {
    open spec fn ready(&self, from: Option<ForeignError>) -> bool {
        self.fn_spec().requires(())
    }

    open spec fn produces(&self, from: Option<ForeignError>, s: Option<S>) -> bool {
        s matches Some(x) && self.fn_spec().ensures((), x)
    }

    fn call(self, from: Option<&ForeignError>) -> (r: Option<S>) {
        let f = self.f;
        Some(f())
    }
}

/// A state derived by a closure from the foreign error an error wraps, when the error is
/// materialized; none without a foreign error or when the closure gives none.
pub struct Derive<F> {
    f: F,
}

impl<F> Derive<F> {
    /// The closure.
    pub closed spec fn fn_spec(&self) -> F {
        self.f
    }

    /// Wraps the closure, which is not called yet.
    pub fn new(f: F) -> (r: Derive<F>)
        ensures
            r.fn_spec() == f,
    {
        Derive { f }
    }
}

impl<S: State, F: FnOnce(&ForeignError) -> Option<S>> StateFn<S> for Derive<F> {
    open spec fn ready(&self, from: Option<ForeignError>) -> bool {
        from matches Some(e) ==> self.fn_spec().requires((&e,))
    }

    open spec fn produces(&self, from: Option<ForeignError>, s: Option<S>) -> bool {
        match from {
            Some(e) => self.fn_spec().ensures((&e,), s),
            None => s is None,
        }
    }

    fn call(self, from: Option<&ForeignError>) -> (r: Option<S>) {
        match from {
            Some(e) => {
                let f = self.f;
                f(e)
            },
            None => None,
        }
    }
}

/// A vacant of an error that held a state of type `S` inline takes a state of type `S2`: the
/// types are the same, or both fit a word.
pub open spec fn reuses_inline<S: State, S2: State>() -> bool {
    S2::tag_spec() == S::tag_spec() || (compact_spec::<S>() && compact_spec::<S2>())
}

/// `e` is the vacant `v` with the state `s` put back: the context and source that the vacant
/// kept, in its body when it kept one.
pub open spec fn restored<S: State>(v: Vacant<S>, s: S, e: RawError<S>) -> bool {
    &&& e.present_spec() == Some(s)
    &&& e.state_text_spec() == Some(s.debug_view())
    &&& e.ctx_spec() == v.ctx_spec()
    &&& e.src_spec() == v.src_spec()
    &&& e.src_tag_spec() == v.src_tag_spec()
    &&& e.own_backtrace_spec() == v.backtrace_spec()
    &&& v.has_body_spec() ==> e.kind_spec() == 1
}

/// An error whose state has been taken out. It keeps the rest of the error, in the error's own
/// allocated body when there was one: a state of the same type goes back into that body, and
/// one of another type into a body of its own with the same parts, when the kind of store
/// accepts it.
pub struct Vacant<S: State> {
    inner: Option<RawVacant<S>>,
}

impl<S: State> Vacant<S> {
    #[verifier::type_invariant]
    spec fn inv(self) -> bool {
        self.inner matches Some(v) ==> store_accepts::<S>(v.store_kind_spec())
    }

    /// The error was stored in an allocated body, which the vacant keeps.
    pub closed spec fn has_body_spec(&self) -> bool {
        self.inner is Some
    }

    /// The context left in the vacant.
    pub closed spec fn ctx_spec(&self) -> Option<(u64, Seq<char>)> {
        match self.inner {
            Some(v) => v.ctx_spec(),
            None => None,
        }
    }

    /// The source left in the vacant.
    pub closed spec fn src_spec(&self) -> Option<SourceNode> {
        match self.inner {
            Some(v) => v.src_spec(),
            None => None,
        }
    }

    /// The type tag the source left in the vacant is found again under, if any.
    pub closed spec fn src_tag_spec(&self) -> Option<u64> {
        match self.inner {
            Some(v) => v.src_tag_spec(),
            None => None,
        }
    }

    /// The backtrace left in the vacant, if any.
    pub closed spec fn backtrace_spec(&self) -> Option<Seq<char>> {
        match self.inner {
            Some(v) => v.backtrace_spec(),
            None => None,
        }
    }

    /// The kind of store the vacant keeps.
    pub closed spec fn store_kind_spec(&self) -> StoreKind {
        match self.inner {
            Some(v) => v.store_kind_spec(),
            None => StoreKind::Never,
        }
    }

    pub(crate) fn new(inner: Option<RawVacant<S>>) -> (r: Vacant<S>)
        requires
            inner matches Some(v) ==> store_accepts::<S>(v.store_kind_spec()),
        ensures
            r.has_body_spec() == inner is Some,
            inner is None ==> r.ctx_spec() is None && r.src_spec() is None,
            inner is None ==> r.src_tag_spec() is None && r.backtrace_spec() is None,
            inner matches Some(v) ==> {
                &&& r.ctx_spec() == v.ctx_spec()
                &&& r.src_spec() == v.src_spec()
                &&& r.src_tag_spec() == v.src_tag_spec()
                &&& r.backtrace_spec() == v.backtrace_spec()
                &&& r.store_kind_spec() == v.store_kind_spec()
            },
    {
        Vacant { inner }
    }

    /// Returns `true` if the vacant kept an allocated body.
    pub fn has_body(&self) -> (r: bool)
        ensures
            r == self.has_body_spec(),
    {
        self.inner.is_some()
    }

    /// Restores the error by putting a state back into it (into the kept body, if any).
    pub fn with_state(self, state: S) -> (e: Error<S>)
        requires
            S::tag_spec() != STATELESS_TAG,
        ensures
            restored(self, state, e.raw_spec()),
    {
        proof {
            use_type_invariant(&self);
        }
        match self.inner {
            None => Error::from_state(state),
            Some(v) => Error::from_raw(v.with_state(state)),
        }
    }

    /// Tries to put a state of another type into the vacant's storage. It succeeds when the
    /// vacant kept a body whose store accepts the type (a word-sized store takes any state that
    /// fits a word, and a typed store takes its own type), and, for a vacant of an error that
    /// held its state inline, when the type is the same or both types fit a word: the new error
    /// then holds the state alone, as the old one did.
    pub fn try_with_state<S2: State>(self, state: S2) -> (r: Result<Error<S2>, (Self, S2)>)
        requires
            S2::tag_spec() != STATELESS_TAG,
        ensures
            r is Ok <==> (if self.has_body_spec() {
                store_accepts::<S2>(self.store_kind_spec())
            } else {
                reuses_inline::<S, S2>()
            }),
            r matches Ok(e) ==> {
                &&& self.has_body_spec() ==> e.raw_spec().kind_spec() == 1
                &&& e.raw_spec().present_spec() == Some(state)
                &&& e.raw_spec().state_text_spec() == Some(state.debug_view())
                &&& e.raw_spec().ctx_spec() == self.ctx_spec()
                &&& e.raw_spec().src_spec() == self.src_spec()
                &&& e.raw_spec().src_tag_spec() == self.src_tag_spec()
                &&& e.raw_spec().own_backtrace_spec() == self.backtrace_spec()
            },
            r matches Err(p) ==> p.0 == self && p.1 == state,
    {
        proof {
            use_type_invariant(&self);
        }
        match self.inner {
            None => {
                if S2::type_tag() == S::type_tag() || (Ministate::<S>::is_state_compact()
                    && Ministate::<S2>::is_state_compact()) {
                    Ok(Error::from_state(state))
                } else {
                    Err((Vacant { inner: None }, state))
                }
            },
            Some(v) => match v.try_with_state(state) {
                Ok(e) => Ok(Error::from_raw(e)),
                Err((v, s)) => Err((Vacant { inner: Some(v) }, s)),
            },
        }
    }

    /// Converts into a stateless error; fails when no context or source is left.
    pub fn try_into_stateless(self) -> (r: Result<Error<Stateless>, Self>)
        ensures
            r is Ok <==> (self.ctx_spec() is Some || self.src_spec() is Some),
            r matches Ok(e) ==> {
                &&& e.raw_spec().present_spec() is None
                &&& e.raw_spec().state_text_spec() is None
                &&& e.raw_spec().ctx_spec() == self.ctx_spec()
                &&& e.raw_spec().src_spec() == self.src_spec()
            },
            r matches Err(v) ==> v == self,
    {
        proof {
            use_type_invariant(&self);
        }
        match self.inner {
            None => Err(Vacant { inner: None }),
            Some(v) => match v.try_into_stateless() {
                Ok(e) => Ok(Error::from_raw(e)),
                Err(v) => Err(Vacant { inner: Some(v) }),
            },
        }
    }

    /// Derives a new error with a state and a context from the vacant: what is left in the
    /// vacant becomes the source of the new error.
    pub fn derive<S2: State>(self, state: S2, context: Value) -> (e: Error<S2>)
        requires
            S2::tag_spec() != STATELESS_TAG,
        ensures
            e.raw_spec().present_spec() == Some(state),
            e.raw_spec().state_text_spec() == Some(state.debug_view()),
            e.raw_spec().ctx_spec() == context.pair(),
            !self.has_body_spec() ==> e.raw_spec().src_spec() is None,
            (self.ctx_spec() is None && self.src_spec() is None) ==> e.raw_spec().src_spec() is None,
            !(self.ctx_spec() is None && self.src_spec() is None) ==> (e.raw_spec().src_spec() matches Some(SourceNode::Erratic(x)) && {
                &&& x.kind_spec() == 1
                &&& x.meta_spec() == Metastate::Empty
                &&& x.state_text_spec() is None
                &&& x.ctx_spec() == self.ctx_spec()
                &&& x.src_spec() == self.src_spec()
            }),
    {
        proof {
            use_type_invariant(&self);
            crate::raw::state::lemma_store_kind_accepts_own_type::<S2>();
        }
        match self.inner {
            None => Error::from_raw(RawError::new(Some(state), None::<NoSource>, context)),
            Some(v) => Error::from_raw(v.derive(Some(state), context)),
        }
    }

    /// Derives a new error with a state and no context from the vacant.
    pub fn derive_with_state<S2: State>(self, state: S2) -> (e: Error<S2>)
        requires
            S2::tag_spec() != STATELESS_TAG,
        ensures
            e.raw_spec().present_spec() == Some(state),
            e.raw_spec().state_text_spec() == Some(state.debug_view()),
            e.raw_spec().ctx_spec() is None,
            !self.has_body_spec() ==> e.raw_spec().src_spec() is None,
            (self.ctx_spec() is None && self.src_spec() is None) ==> e.raw_spec().src_spec() is None,
            !(self.ctx_spec() is None && self.src_spec() is None) ==> (e.raw_spec().src_spec() matches Some(SourceNode::Erratic(x)) && {
                &&& x.state_text_spec() is None
                &&& x.ctx_spec() == self.ctx_spec()
                &&& x.src_spec() == self.src_spec()
            }),
    {
        self.derive(state, Value::Empty)
    }

    /// Derives a new stateless error with a context from the vacant.
    pub fn derive_with_context(self, context: Value) -> (e: Error<Stateless>)
        ensures
            e.raw_spec().present_spec() is None,
            e.raw_spec().state_text_spec() is None,
            !self.has_body_spec() ==> e.raw_spec().src_spec() is None,
            (self.ctx_spec() is None && self.src_spec() is None) ==> {
                &&& e.raw_spec().ctx_spec() == context.pair()
                &&& e.raw_spec().src_spec() is None
            },
            !(self.ctx_spec() is None && self.src_spec() is None) ==> (if context is Empty {
                &&& e.raw_spec().ctx_spec() == self.ctx_spec()
                &&& e.raw_spec().src_spec() == self.src_spec()
            } else {
                &&& e.raw_spec().ctx_spec() == context.pair()
                &&& e.raw_spec().src_spec() matches Some(SourceNode::Erratic(x)) && {
                    &&& x.ctx_spec() == self.ctx_spec()
                    &&& x.src_spec() == self.src_spec()
                }
            }),
    {
        proof {
            use_type_invariant(&self);
        }
        match self.inner {
            None => Error::from_raw(RawError::new(None, None::<NoSource>, context)),
            Some(v) => Error::from_raw(v.derive(None, context)),
        }
    }
}

} // verus!
