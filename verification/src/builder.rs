//! Building errors from their parts.
//!
//! A builder keeps a source error, something that produces the state, and something that
//! produces the context. The state and the context are produced only when the error is
//! materialized.
use vstd::prelude::*;

use crate::context::{self, Context, ContextFn, Contextless, Value};
use crate::raw::source::NoSource;
use crate::raw::{erased_chain, erased_display, made_from, opt_text, ErasedRawError, ForeignError, RawError, SourceNode};
use crate::rtti::STATELESS_TAG;
use crate::state::{self, Derive, Lazy, State, StateFn, Stateless};
use crate::Error;

verus! {

/// A placeholder for builders without a source error.
pub struct Errorless {
    _priv: (),
}

/// Not an error: a placeholder that stands where a builder has no source error. It is consumed
/// when the error is built and never appears in a chain.
pub struct Nae {
    _priv: (),
}

impl Nae {
    /// The message of the placeholder: empty.
    pub fn to_string(&self) -> (r: String)
        ensures
            r@ == Seq::<char>::empty(),
    {
        String::new()
    }
}

/// The source error a builder wraps.
pub enum Cause<S: State> {
    /// An error of another kind.
    Foreign(ForeignError),
    /// An error of this library with the same state type.
    Erratic(Error<S>),
    /// A stateless error of this library.
    Stateless(Error<Stateless>),
}

/// `x` is the erased form of the error `e`: same state text, context, source, message and
/// chain.
pub open spec fn erased_from<S: State>(x: ErasedRawError, e: Error<S>) -> bool {
    &&& x.state_text_spec() == e.raw_spec().state_text_spec()
    &&& x.ctx_spec() == e.raw_spec().ctx_spec()
    &&& x.src_spec() == e.raw_spec().src_spec()
    &&& erased_display(x) == e.raw_spec().display_spec()
    &&& erased_chain(x) == e.raw_spec().chain_spec()
}

/// The foreign error a state may be derived from: the source error when it is foreign.
pub open spec fn derive_source<S: State>(err: Option<Cause<S>>) -> Option<ForeignError> {
    match err {
        Some(Cause::Foreign(f)) => Some(f),
        _ => None,
    }
}

/// The builder can be materialized: its state and context can be produced; without a source
/// error it surely produces a state or a context; with an error of this library of the same
/// state type it produces no state; and it produces no state of the placeholder type.
pub open spec fn buildable<S: State, X: StateFn<S>, F: ContextFn>(
    err: Option<Cause<S>>,
    state: X,
    context: F,
) -> bool {
    let from = derive_source(err);
    &&& state.ready(from)
    &&& context.ready()
    &&& err is None ==> ((forall|s: Option<S>| #[trigger] state.produces(from, s) ==> s is Some) || (
    forall|v: Value| #[trigger] context.produces(v) ==> !(v is Empty)))
    &&& err matches Some(Cause::Erratic(_)) ==> (forall|s: Option<S>| #[trigger]
        state.produces(from, s) ==> s is None)
    &&& S::tag_spec() == STATELESS_TAG ==> (forall|s: Option<S>| #[trigger] state.produces(from, s)
        ==> s is None)
}

/// An intermediate builder for an [`Error`] with state type `S`: a source error, something
/// that produces the state (`X`), and something that produces the context (`F`).
pub struct Builder<
    S: State = Stateless,
    X: StateFn<S> = state::Identity<S>,
    F: ContextFn = context::Identity<Contextless>,
> {
    err: Option<Cause<S>>,
    state: X,
    context: F,
}

impl<S: State, X: StateFn<S>, F: ContextFn> Builder<S, X, F> {
    #[verifier::type_invariant]
    spec fn inv(self) -> bool {
        buildable(self.err, self.state, self.context)
    }

    /// The source error.
    pub closed spec fn err_spec(&self) -> Option<Cause<S>> {
        self.err
    }

    /// What produces the state.
    pub closed spec fn state_spec(&self) -> X {
        self.state
    }

    /// What produces the context.
    pub closed spec fn context_spec(&self) -> F {
        self.context
    }

    /// `s` is a state the builder may produce.
    pub open spec fn may_state(&self, s: Option<S>) -> bool {
        self.state_spec().produces(derive_source(self.err_spec()), s)
    }

    /// Attaches a context, replacing any context attached before.
    pub fn attach_context<C: Context>(self, context: C) -> (b: Builder<S, X, context::Identity<C>>)
        requires
            context.ready(),
            forall|v: Value| #[trigger] context.gives(v) ==> !(v is Empty),
        ensures
            b.err_spec() == self.err_spec(),
            b.state_spec() == self.state_spec(),
            b.context_spec() == context::Identity(context),
    {
        proof {
            use_type_invariant(&self);
        }
        Builder { err: self.err, state: self.state, context: context::Identity(context) }
    }

    /// Attaches something that produces a context when the error is materialized, replacing
    /// any context attached before.
    pub fn attach_context_fn<G: ContextFn>(self, f: G) -> (b: Builder<S, X, G>)
        requires
            f.ready(),
            forall|v: Value| #[trigger] f.produces(v) ==> !(v is Empty),
        ensures
            b.err_spec() == self.err_spec(),
            b.state_spec() == self.state_spec(),
            b.context_spec() == f,
    {
        proof {
            use_type_invariant(&self);
        }
        Builder { err: self.err, state: self.state, context: f }
    }

    /// The source error moved under state type `S2`: an error of this library with its own
    /// state type has its state erased first (its message stays).
    fn retarget<S2: State>(err: Option<Cause<S>>) -> (r: Option<Cause<S2>>)
        ensures
            err is None ==> r is None,
            err matches Some(Cause::Foreign(f)) ==> r == Some(Cause::<S2>::Foreign(f)),
            err matches Some(Cause::Stateless(e)) ==> r == Some(Cause::<S2>::Stateless(e)),
            err matches Some(Cause::Erratic(e)) ==> (r matches Some(Cause::Stateless(x)) && {
                &&& x.raw_spec().display_spec() == e.raw_spec().display_spec()
                &&& x.raw_spec().chain_spec() == e.raw_spec().chain_spec()
            }),
    {
        match err {
            Some(Cause::Foreign(f)) => Some(Cause::Foreign(f)),
            Some(Cause::Stateless(e)) => Some(Cause::Stateless(e)),
            Some(Cause::Erratic(e)) => Some(Cause::Stateless(e.erase_state())),
            None => None,
        }
    }

    /// Attaches a state of type `S2`, replacing any state attached before. A source error of
    /// this library has its state erased (its message stays).
    pub fn attach_state<S2: State>(self, state: S2) -> (b: Builder<S2, state::Identity<S2>, F>)
        requires
            S2::tag_spec() != STATELESS_TAG,
        ensures
            b.state_spec().state_spec() == Some(state),
            b.context_spec() == self.context_spec(),
            self.err_spec() is None ==> b.err_spec() is None,
            self.err_spec() matches Some(Cause::Foreign(f)) ==> b.err_spec() == Some(Cause::<S2>::Foreign(f)),
            self.err_spec() matches Some(Cause::Stateless(e)) ==> b.err_spec() == Some(Cause::<S2>::Stateless(e)),
            self.err_spec() matches Some(Cause::Erratic(e)) ==> (b.err_spec() matches Some(Cause::Stateless(x)) && {
                &&& x.raw_spec().display_spec() == e.raw_spec().display_spec()
                &&& x.raw_spec().chain_spec() == e.raw_spec().chain_spec()
            }),
    {
        proof {
            use_type_invariant(&self);
        }
        let err = Self::retarget(self.err);
        Builder { err, state: state::Identity::new(state), context: self.context }
    }

    /// Attaches a state that a closure makes when the error is materialized (see
    /// [`Builder::attach_state`]).
    pub fn attach_state_fn<S2: State, G: FnOnce() -> S2>(self, f: G) -> (b: Builder<S2, Lazy<G>, F>)
        requires
            S2::tag_spec() != STATELESS_TAG,
            f.requires(()),
        ensures
            b.state_spec().fn_spec() == f,
            b.context_spec() == self.context_spec(),
            self.err_spec() is None ==> b.err_spec() is None,
            self.err_spec() matches Some(Cause::Foreign(e)) ==> b.err_spec() == Some(Cause::<S2>::Foreign(e)),
            self.err_spec() matches Some(Cause::Stateless(e)) ==> b.err_spec() == Some(Cause::<S2>::Stateless(e)),
            self.err_spec() matches Some(Cause::Erratic(e)) ==> (b.err_spec() matches Some(Cause::Stateless(x)) && {
                &&& x.raw_spec().display_spec() == e.raw_spec().display_spec()
                &&& x.raw_spec().chain_spec() == e.raw_spec().chain_spec()
            }),
    {
        proof {
            use_type_invariant(&self);
        }
        let err = Self::retarget(self.err);
        Builder { err, state: Lazy::new(f), context: self.context }
    }

    /// Attaches a state that `f` derives from the foreign source error when the error is
    /// materialized; none when `f` gives `None`.
    pub fn attach_state_derived<S2: State, G: FnOnce(&ForeignError) -> Option<S2>>(self, f: G) -> (b: Builder<S2, Derive<G>, F>)
        requires
            S2::tag_spec() != STATELESS_TAG,
            self.err_spec() matches Some(Cause::Foreign(e)) && f.requires((&e,)),
        ensures
            b.err_spec() == Some(Cause::<S2>::Foreign(derive_source(self.err_spec())->Some_0)),
            b.state_spec().fn_spec() == f,
            b.context_spec() == self.context_spec(),
    {
        proof {
            use_type_invariant(&self);
        }
        match self.err {
            Some(Cause::Foreign(e)) => Builder { err: Some(Cause::Foreign(e)), state: Derive::new(f), context: self.context },
            _ => {
                assert(false);
                Builder { err: None, state: Derive::new(f), context: self.context }
            },
        }
    }
}

impl<S: State> Builder<S, state::Identity<S>, context::Identity<Contextless>> {
    /// Starts building from a foreign source error.
    pub fn with_error(err: ForeignError) -> (b: Self)
        ensures
            b.err_spec() == Some(Cause::<S>::Foreign(err)),
            b.state_spec().state_spec() is None,
    {
        Builder { err: Some(Cause::Foreign(err)), state: state::Identity::phantom(), context: context::Identity(Contextless::new()) }
    }

    /// Starts building from an error of this library with the same state type.
    pub fn with_erratic(err: Error<S>) -> (b: Self)
        ensures
            b.err_spec() == Some(Cause::Erratic(err)),
            b.state_spec().state_spec() is None,
    {
        Builder { err: Some(Cause::Erratic(err)), state: state::Identity::phantom(), context: context::Identity(Contextless::new()) }
    }

    /// Starts building from a stateless error of this library.
    pub fn with_stateless(err: Error<Stateless>) -> (b: Self)
        ensures
            b.err_spec() == Some(Cause::<S>::Stateless(err)),
            b.state_spec().state_spec() is None,
    {
        Builder { err: Some(Cause::Stateless(err)), state: state::Identity::phantom(), context: context::Identity(Contextless::new()) }
    }

    /// Starts building from a state.
    pub fn with_state(state: S) -> (b: Self)
        requires
            S::tag_spec() != STATELESS_TAG,
        ensures
            b.err_spec() is None,
            b.state_spec().state_spec() == Some(state),
    {
        Builder { err: None, state: state::Identity::new(state), context: context::Identity(Contextless::new()) }
    }

    /// Starts building from a state that a closure makes when the error is materialized.
    pub fn with_state_fn<G: FnOnce() -> S>(f: G) -> (b: Builder<S, Lazy<G>, context::Identity<Contextless>>)
        requires
            S::tag_spec() != STATELESS_TAG,
            f.requires(()),
        ensures
            b.err_spec() is None,
            b.state_spec().fn_spec() == f,
    {
        Builder { err: None, state: Lazy::new(f), context: context::Identity(Contextless::new()) }
    }

    /// Starts building from a context.
    pub fn with_context<C: Context>(context: C) -> (b: Builder<S, state::Identity<S>, context::Identity<C>>)
        requires
            context.ready(),
            forall|v: Value| #[trigger] context.gives(v) ==> !(v is Empty),
        ensures
            b.err_spec() is None,
            b.state_spec().state_spec() is None,
            b.context_spec() == context::Identity(context),
    {
        Builder { err: None, state: state::Identity::phantom(), context: context::Identity(context) }
    }

    /// Starts building from something that produces a context when the error is materialized.
    pub fn with_context_fn<G: ContextFn>(f: G) -> (b: Builder<S, state::Identity<S>, G>)
        requires
            f.ready(),
            forall|v: Value| #[trigger] f.produces(v) ==> !(v is Empty),
        ensures
            b.err_spec() is None,
            b.state_spec().state_spec() is None,
            b.context_spec() == f,
    {
        Builder { err: None, state: state::Identity::phantom(), context: f }
    }
}

/// The error `e` is what a builder with source error `err` builds once it produced the state
/// `state` and the context `context`.
///
/// - Without a source error, or with a foreign one, the error holds exactly the state, the
///   source and the context (see [`made_from`]).
/// - With a stateless error of this library and nothing else, the error is that error.
///   Otherwise that error, erased, becomes the source.
/// - With an error of this library of the same state type and no context, the error is that
///   error. With a context, the error keeps its state (if any) and takes the new context; what
///   else it held becomes its source.
pub open spec fn built_with<S: State>(err: Option<Cause<S>>, state: Option<S>, context: Value, e: Error<S>) -> bool {
    match err {
        None => made_from(e.raw_spec(), state, None, context),
        Some(Cause::Foreign(f)) => {
            &&& made_from(e.raw_spec(), state, Some(SourceNode::Foreign(f)), context)
            &&& e.raw_spec().src_tag_spec() == Some(f.type_tag)
        },
        Some(Cause::Stateless(x)) => if state is None && context is Empty {
            &&& e.raw_spec().present_spec() is None
            &&& e.raw_spec().state_text_spec() == x.raw_spec().state_text_spec()
            &&& e.raw_spec().ctx_spec() == x.raw_spec().ctx_spec()
            &&& e.raw_spec().src_spec() == x.raw_spec().src_spec()
        } else {
            &&& e.raw_spec().present_spec() == state
            &&& e.raw_spec().state_text_spec() == opt_text(state)
            &&& e.raw_spec().ctx_spec() == context.pair()
            &&& e.raw_spec().src_spec() matches Some(SourceNode::Erratic(y)) && erased_from(*y, x)
        },
        Some(Cause::Erratic(x)) => if context is Empty {
            e == x
        } else {
            match x.raw_spec().present_spec() {
                Some(s) => {
                    &&& e.raw_spec().present_spec() == Some(s)
                    &&& e.raw_spec().state_text_spec() == Some(s.debug_view())
                    &&& e.raw_spec().ctx_spec() == context.pair()
                    &&& (x.raw_spec().ctx_spec() is None && x.raw_spec().src_spec() is None)
                        ==> e.raw_spec().src_spec() is None
                    &&& !(x.raw_spec().ctx_spec() is None && x.raw_spec().src_spec() is None)
                        ==> (e.raw_spec().src_spec() matches Some(SourceNode::Erratic(y)) && {
                        &&& y.state_text_spec() is None
                        &&& y.ctx_spec() == x.raw_spec().ctx_spec()
                        &&& y.src_spec() == x.raw_spec().src_spec()
                    })
                },
                None => {
                    &&& e.raw_spec().present_spec() is None
                    &&& e.raw_spec().state_text_spec() is None
                    &&& e.raw_spec().ctx_spec() == context.pair()
                    &&& e.raw_spec().src_spec() matches Some(SourceNode::Erratic(y)) && erased_from(*y, x)
                },
            }
        },
    }
}

/// The error `e` is what the builder `b` builds: with a state and a context that it may
/// produce (see [`built_with`]).
pub open spec fn built_from<S: State, X: StateFn<S>, F: ContextFn>(b: Builder<S, X, F>, e: Error<S>) -> bool {
    exists|s: Option<S>, v: Value|
        #![trigger b.may_state(s), b.context_spec().produces(v)]
        b.may_state(s) && b.context_spec().produces(v) && built_with(b.err_spec(), s, v, e)
}

/// Materializes the error from its source error, state and context.
fn materialize<S: State>(err: Option<Cause<S>>, state: Option<S>, context: Value) -> (e: Error<S>)
    requires
        !(err is None && state is None && context is Empty),
        err matches Some(Cause::Erratic(_)) ==> state is None,
        state is Some ==> S::tag_spec() != STATELESS_TAG,
    ensures
        built_with(err, state, context, e),
{
    proof {
        crate::raw::state::lemma_store_kind_accepts_own_type::<S>();
    }
    match err {
        None => Error::from_raw(RawError::new(state, None::<NoSource>, context)),
        Some(Cause::Foreign(f)) => Error::from_raw(RawError::new(state, Some(SourceNode::Foreign(f)), context)),
        Some(Cause::Stateless(x)) => {
            proof {
                use_type_invariant(&x);
            }
            let erased = x.erase();
            Error::from_raw(RawError::new(state, Some(SourceNode::Erratic(Box::new(erased))), context))
        },
        Some(Cause::Erratic(x)) => {
            if !context.is_some() {
                x
            } else {
                let ghost gx = x;
                match x.extract_state() {
                    Ok((s, vacant)) => vacant.derive(s, context),
                    Err(err) => {
                        let erased = err.erase();
                        assert(err.raw_spec().display_spec() == gx.raw_spec().display_spec());
                        assert(err.raw_spec().chain_spec() == gx.raw_spec().chain_spec());
                        Error::from_raw(RawError::new(None, Some(SourceNode::Erratic(Box::new(erased))), context))
                    },
                }
            }
        },
    }
}

/// Materializing or erasing an error.
pub trait ErrorExt: Sized {
    /// What materializing gives.
    type Output;

    /// What erasing gives.
    type Erased;

    /// Materializes the final error.
    fn build_error(self) -> Self::Output;

    /// Materializes the error and erases its state type.
    fn erase_error(self) -> Self::Erased;
}

impl<S: State, X: StateFn<S>, F: ContextFn> ErrorExt for Builder<S, X, F> {
    type Output = Error<S>;

    type Erased = ErasedRawError;

    fn build_error(self) -> (e: Error<S>)
        ensures
            built_from(self, e),
    {
        proof {
            use_type_invariant(&self);
        }
        let ghost gb = self;
        let Builder { err, state: state_fn, context: context_fn } = self;
        let state = match &err {
            Some(Cause::Foreign(f)) => state_fn.call(Some(f)),
            _ => state_fn.call(None),
        };
        let context = context_fn.call();
        let e = materialize(err, state, context);
        assert(gb.may_state(state) && gb.context_spec().produces(context) && built_with(gb.err_spec(), state, context, e));
        e
    }

    fn erase_error(self) -> (r: ErasedRawError)
        ensures
            exists|e: Error<S>| built_from(self, e) && erased_from(r, e),
    {
        let e = self.build_error();
        let r = e.erase();
        assert(built_from(self, e) && erased_from(r, e));
        r
    }
}

impl<S: State> ErrorExt for Error<S> {
    type Output = Error<S>;

    type Erased = ErasedRawError;

    fn build_error(self) -> (e: Error<S>)
        ensures
            e == self,
    {
        self
    }

    fn erase_error(self) -> (r: ErasedRawError)
        ensures
            erased_from(r, self),
    {
        self.erase()
    }
}

impl<T, S: State, X: StateFn<S>, F: ContextFn> ErrorExt for Result<T, Builder<S, X, F>> {
    type Output = Result<T, Error<S>>;

    type Erased = Result<T, ErasedRawError>;

    fn build_error(self) -> (r: Result<T, Error<S>>)
        ensures
            match self {
                Ok(v) => r == Ok::<T, Error<S>>(v),
                Err(b) => r matches Err(e) && built_from(b, e),
            },
    {
        match self {
            Ok(v) => Ok(v),
            Err(b) => Err(b.build_error()),
        }
    }

    fn erase_error(self) -> (r: Result<T, ErasedRawError>)
        ensures
            match self {
                Ok(v) => r == Ok::<T, ErasedRawError>(v),
                Err(b) => r matches Err(x) && exists|e: Error<S>| built_from(b, e) && erased_from(x, e),
            },
    {
        match self {
            Ok(v) => Ok(v),
            Err(b) => Err(b.erase_error()),
        }
    }
}

impl<T, S: State> ErrorExt for Result<T, Error<S>> {
    type Output = Result<T, Error<S>>;

    type Erased = Result<T, ErasedRawError>;

    fn build_error(self) -> (r: Result<T, Error<S>>)
        ensures
            r == self,
    {
        self
    }

    fn erase_error(self) -> (r: Result<T, ErasedRawError>)
        ensures
            match self {
                Ok(v) => r == Ok::<T, ErasedRawError>(v),
                Err(e) => r matches Err(x) && erased_from(x, e),
            },
    {
        match self {
            Ok(v) => Ok(v),
            Err(e) => Err(e.erase()),
        }
    }
}

impl<T> ErrorExt for Result<T, ForeignError> {
    type Output = Result<T, Error<Stateless>>;

    type Erased = Result<T, ErasedRawError>;

    fn build_error(self) -> (r: Result<T, Error<Stateless>>)
        ensures
            match self {
                Ok(v) => r == Ok::<T, Error<Stateless>>(v),
                Err(f) => r matches Err(e) && made_from(e.raw_spec(), None, Some(SourceNode::Foreign(f)), Value::Empty),
            },
    {
        match self {
            Ok(v) => Ok(v),
            Err(f) => Err(Error::from_error(f)),
        }
    }

    fn erase_error(self) -> (r: Result<T, ErasedRawError>)
        ensures
            match self {
                Ok(v) => r == Ok::<T, ErasedRawError>(v),
                Err(f) => r matches Err(x) && {
                    &&& x.state_text_spec() is None
                    &&& x.ctx_spec() is None
                    &&& x.src_spec() == Some(SourceNode::Foreign(f))
                },
            },
    {
        match self {
            Ok(v) => Ok(v),
            Err(f) => Err(Error::<Stateless>::from_error(f).erase()),
        }
    }
}

/// Attaching a context or a state to the error of a `Result`, or to a missing value, which
/// gives a builder. `S`, `X` and `F` are the state type and the producers of state and context
/// of the builder this starts from.
pub trait BuilderExt<T, S: State, X: StateFn<S>, F: ContextFn>: Sized {
    /// Attaches a context.
    fn with_context<C: Context>(self, context: C) -> Result<T, Builder<S, X, context::Identity<C>>>
        requires
            context.ready(),
            forall|v: Value| #[trigger] context.gives(v) ==> !(v is Empty),
    ;

    /// Attaches something that produces a context when the error is materialized.
    fn with_context_fn<G: ContextFn>(self, f: G) -> Result<T, Builder<S, X, G>>
        requires
            f.ready(),
            forall|v: Value| #[trigger] f.produces(v) ==> !(v is Empty),
    ;

    /// Attaches a state.
    fn with_state<S2: State>(self, state: S2) -> Result<T, Builder<S2, state::Identity<S2>, F>>
        requires
            S2::tag_spec() != STATELESS_TAG,
    ;

    /// Attaches a state that a closure makes when the error is materialized.
    fn with_state_fn<S2: State, G: FnOnce() -> S2>(self, f: G) -> Result<T, Builder<S2, Lazy<G>, F>>
        requires
            S2::tag_spec() != STATELESS_TAG,
            f.requires(()),
    ;
}

impl<T> BuilderExt<T, Stateless, state::Identity<Stateless>, context::Identity<Contextless>> for Result<T, ForeignError> {
    fn with_context<C: Context>(self, context: C) -> (r: Result<T, Builder<Stateless, state::Identity<Stateless>, context::Identity<C>>>)
        ensures
            match self {
                Ok(v) => r == Ok::<T, Builder<Stateless, state::Identity<Stateless>, context::Identity<C>>>(v),
                Err(f) => r matches Err(b) && {
                    &&& b.err_spec() == Some(Cause::<Stateless>::Foreign(f))
                    &&& b.state_spec().state_spec() is None
                    &&& b.context_spec() == context::Identity(context)
                },
            },
    {
        match self {
            Ok(v) => Ok(v),
            Err(f) => Err(Builder::with_error(f).attach_context(context)),
        }
    }

    fn with_context_fn<G: ContextFn>(self, f: G) -> (r: Result<T, Builder<Stateless, state::Identity<Stateless>, G>>)
        ensures
            match self {
                Ok(v) => r == Ok::<T, Builder<Stateless, state::Identity<Stateless>, G>>(v),
                Err(x) => r matches Err(b) && {
                    &&& b.err_spec() == Some(Cause::<Stateless>::Foreign(x))
                    &&& b.state_spec().state_spec() is None
                    &&& b.context_spec() == f
                },
            },
    {
        match self {
            Ok(v) => Ok(v),
            Err(x) => Err(Builder::with_error(x).attach_context_fn(f)),
        }
    }

    fn with_state<S2: State>(self, state: S2) -> (r: Result<T, Builder<S2, state::Identity<S2>, context::Identity<Contextless>>>)
        ensures
            match self {
                Ok(v) => r == Ok::<T, Builder<S2, state::Identity<S2>, context::Identity<Contextless>>>(v),
                Err(f) => r matches Err(b) && {
                    &&& b.err_spec() == Some(Cause::<S2>::Foreign(f))
                    &&& b.state_spec().state_spec() == Some(state)
                },
            },
    {
        match self {
            Ok(v) => Ok(v),
            Err(f) => Err(Builder::<Stateless>::with_error(f).attach_state(state)),
        }
    }

    fn with_state_fn<S2: State, G: FnOnce() -> S2>(self, f: G) -> (r: Result<T, Builder<S2, Lazy<G>, context::Identity<Contextless>>>)
        ensures
            match self {
                Ok(v) => r == Ok::<T, Builder<S2, Lazy<G>, context::Identity<Contextless>>>(v),
                Err(x) => r matches Err(b) && {
                    &&& b.err_spec() == Some(Cause::<S2>::Foreign(x))
                    &&& b.state_spec().fn_spec() == f
                },
            },
    {
        match self {
            Ok(v) => Ok(v),
            Err(x) => Err(Builder::<Stateless>::with_error(x).attach_state_fn(f)),
        }
    }
}

impl<T, S: State, X: StateFn<S>, F: ContextFn> BuilderExt<T, S, X, F> for Result<T, Builder<S, X, F>> {
    fn with_context<C: Context>(self, context: C) -> (r: Result<T, Builder<S, X, context::Identity<C>>>)
        ensures
            match self {
                Ok(v) => r == Ok::<T, Builder<S, X, context::Identity<C>>>(v),
                Err(b0) => r matches Err(b) && {
                    &&& b.err_spec() == b0.err_spec()
                    &&& b.state_spec() == b0.state_spec()
                    &&& b.context_spec() == context::Identity(context)
                },
            },
    {
        match self {
            Ok(v) => Ok(v),
            Err(b) => Err(b.attach_context(context)),
        }
    }

    fn with_context_fn<G: ContextFn>(self, f: G) -> (r: Result<T, Builder<S, X, G>>)
        ensures
            match self {
                Ok(v) => r == Ok::<T, Builder<S, X, G>>(v),
                Err(b0) => r matches Err(b) && {
                    &&& b.err_spec() == b0.err_spec()
                    &&& b.state_spec() == b0.state_spec()
                    &&& b.context_spec() == f
                },
            },
    {
        match self {
            Ok(v) => Ok(v),
            Err(b) => Err(b.attach_context_fn(f)),
        }
    }

    fn with_state<S2: State>(self, state: S2) -> (r: Result<T, Builder<S2, state::Identity<S2>, F>>)
        ensures
            match self {
                Ok(v) => r == Ok::<T, Builder<S2, state::Identity<S2>, F>>(v),
                Err(b0) => r matches Err(b) && {
                    &&& b.state_spec().state_spec() == Some(state)
                    &&& b.context_spec() == b0.context_spec()
                    &&& b0.err_spec() is None ==> b.err_spec() is None
                    &&& b0.err_spec() matches Some(Cause::Foreign(f)) ==> b.err_spec() == Some(Cause::<S2>::Foreign(f))
                    &&& b0.err_spec() matches Some(Cause::Stateless(e)) ==> b.err_spec() == Some(Cause::<S2>::Stateless(e))
                },
            },
    {
        match self {
            Ok(v) => Ok(v),
            Err(b) => Err(b.attach_state(state)),
        }
    }

    fn with_state_fn<S2: State, G: FnOnce() -> S2>(self, f: G) -> (r: Result<T, Builder<S2, Lazy<G>, F>>)
        ensures
            match self {
                Ok(v) => r == Ok::<T, Builder<S2, Lazy<G>, F>>(v),
                Err(b0) => r matches Err(b) && {
                    &&& b.state_spec().fn_spec() == f
                    &&& b.context_spec() == b0.context_spec()
                    &&& b0.err_spec() matches Some(Cause::Foreign(x)) ==> b.err_spec() == Some(Cause::<S2>::Foreign(x))
                },
            },
    {
        match self {
            Ok(v) => Ok(v),
            Err(b) => Err(b.attach_state_fn(f)),
        }
    }
}

impl<T> BuilderExt<T, Stateless, state::Identity<Stateless>, context::Identity<Contextless>> for Option<T> {
    fn with_context<C: Context>(self, context: C) -> (r: Result<T, Builder<Stateless, state::Identity<Stateless>, context::Identity<C>>>)
        ensures
            match self {
                Some(v) => r == Ok::<T, Builder<Stateless, state::Identity<Stateless>, context::Identity<C>>>(v),
                None => r matches Err(b) && {
                    &&& b.err_spec() is None
                    &&& b.state_spec().state_spec() is None
                    &&& b.context_spec() == context::Identity(context)
                },
            },
    {
        match self {
            Some(v) => Ok(v),
            None => Err(Builder::with_context(context)),
        }
    }

    fn with_context_fn<G: ContextFn>(self, f: G) -> (r: Result<T, Builder<Stateless, state::Identity<Stateless>, G>>)
        ensures
            match self {
                Some(v) => r == Ok::<T, Builder<Stateless, state::Identity<Stateless>, G>>(v),
                None => r matches Err(b) && {
                    &&& b.err_spec() is None
                    &&& b.state_spec().state_spec() is None
                    &&& b.context_spec() == f
                },
            },
    {
        match self {
            Some(v) => Ok(v),
            None => Err(Builder::with_context_fn(f)),
        }
    }

    fn with_state<S2: State>(self, state: S2) -> (r: Result<T, Builder<S2, state::Identity<S2>, context::Identity<Contextless>>>)
        ensures
            match self {
                Some(v) => r == Ok::<T, Builder<S2, state::Identity<S2>, context::Identity<Contextless>>>(v),
                None => r matches Err(b) && {
                    &&& b.err_spec() is None
                    &&& b.state_spec().state_spec() == Some(state)
                },
            },
    {
        match self {
            Some(v) => Ok(v),
            None => Err(Builder::with_state(state)),
        }
    }

    fn with_state_fn<S2: State, G: FnOnce() -> S2>(self, f: G) -> (r: Result<T, Builder<S2, Lazy<G>, context::Identity<Contextless>>>)
        ensures
            match self {
                Some(v) => r == Ok::<T, Builder<S2, Lazy<G>, context::Identity<Contextless>>>(v),
                None => r matches Err(b) && {
                    &&& b.err_spec() is None
                    &&& b.state_spec().fn_spec() == f
                },
            },
    {
        match self {
            Some(v) => Ok(v),
            None => Err(Builder::with_state_fn(f)),
        }
    }
}

impl<T, S: State> BuilderExt<T, S, state::Identity<S>, context::Identity<Contextless>> for Result<T, Error<S>> {
    fn with_context<C: Context>(self, context: C) -> (r: Result<T, Builder<S, state::Identity<S>, context::Identity<C>>>)
        ensures
            match self {
                Ok(v) => r == Ok::<T, Builder<S, state::Identity<S>, context::Identity<C>>>(v),
                Err(e) => r matches Err(b) && {
                    &&& b.err_spec() == Some(Cause::Erratic(e))
                    &&& b.state_spec().state_spec() is None
                    &&& b.context_spec() == context::Identity(context)
                },
            },
    {
        match self {
            Ok(v) => Ok(v),
            Err(e) => Err(Builder::with_erratic(e).attach_context(context)),
        }
    }

    fn with_context_fn<G: ContextFn>(self, f: G) -> (r: Result<T, Builder<S, state::Identity<S>, G>>)
        ensures
            match self {
                Ok(v) => r == Ok::<T, Builder<S, state::Identity<S>, G>>(v),
                Err(e) => r matches Err(b) && {
                    &&& b.err_spec() == Some(Cause::Erratic(e))
                    &&& b.state_spec().state_spec() is None
                    &&& b.context_spec() == f
                },
            },
    {
        match self {
            Ok(v) => Ok(v),
            Err(e) => Err(Builder::with_erratic(e).attach_context_fn(f)),
        }
    }

    fn with_state<S2: State>(self, state: S2) -> (r: Result<T, Builder<S2, state::Identity<S2>, context::Identity<Contextless>>>)
        ensures
            match self {
                Ok(v) => r == Ok::<T, Builder<S2, state::Identity<S2>, context::Identity<Contextless>>>(v),
                Err(e) => r matches Err(b) && {
                    &&& b.state_spec().state_spec() == Some(state)
                    &&& b.err_spec() matches Some(Cause::Stateless(x)) && {
                        &&& x.raw_spec().display_spec() == e.raw_spec().display_spec()
                        &&& x.raw_spec().chain_spec() == e.raw_spec().chain_spec()
                    }
                },
            },
    {
        match self {
            Ok(v) => Ok(v),
            Err(e) => Err(Builder::with_erratic(e).attach_state(state)),
        }
    }

    fn with_state_fn<S2: State, G: FnOnce() -> S2>(self, f: G) -> (r: Result<T, Builder<S2, Lazy<G>, context::Identity<Contextless>>>)
        ensures
            match self {
                Ok(v) => r == Ok::<T, Builder<S2, Lazy<G>, context::Identity<Contextless>>>(v),
                Err(e) => r matches Err(b) && b.state_spec().fn_spec() == f,
            },
    {
        match self {
            Ok(v) => Ok(v),
            Err(e) => Err(Builder::with_erratic(e).attach_state_fn(f)),
        }
    }
}

/// Deriving a state from a foreign source error.
pub trait DeriveExt<T>: Sized {
    /// Attaches the state `f` derives from the source error when the error is materialized;
    /// none when `f` gives `None`.
    fn with_state_derived<S2: State, G: FnOnce(&ForeignError) -> Option<S2>>(self, f: G) -> Result<T, Builder<S2, Derive<G>, context::Identity<Contextless>>>
        requires
            S2::tag_spec() != STATELESS_TAG,
            forall|e: &ForeignError| #[trigger] f.requires((e,)),
    ;
}

impl<T> DeriveExt<T> for Result<T, ForeignError> {
    fn with_state_derived<S2: State, G: FnOnce(&ForeignError) -> Option<S2>>(self, f: G) -> (r: Result<T, Builder<S2, Derive<G>, context::Identity<Contextless>>>)
        ensures
            match self {
                Ok(v) => r == Ok::<T, Builder<S2, Derive<G>, context::Identity<Contextless>>>(v),
                Err(x) => r matches Err(b) && {
                    &&& b.err_spec() == Some(Cause::<S2>::Foreign(x))
                    &&& b.state_spec().fn_spec() == f
                },
            },
    {
        match self {
            Ok(v) => Ok(v),
            Err(x) => Err(Builder::<Stateless>::with_error(x).attach_state_derived(f)),
        }
    }
}

} // verus!
