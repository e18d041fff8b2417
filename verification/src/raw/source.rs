//! The containers a source error can come in.
//!
//! An error keeps its source as a [`SourceNode`]. A container says which node an error made
//! from it keeps, which error it reports, and under which type tag it is found again.
use vstd::prelude::*;

use crate::backtrace::{opt_node, opt_text_of, WithBacktrace};
use crate::raw::{boxed_form, node_error_ref, node_tag, opt_str, with_source, RawError, SourceNode};
use crate::rtti::{BOXED_ERROR_TAG, ERRATIC_TAG};
use crate::state::Stateless;

verus! {

/// An error container that can be used as the source of an error.
pub trait Source: Sized {
    /// The source node an error made from this container keeps, if any.
    spec fn node_spec(&self) -> Option<SourceNode>;

    /// The type tag the container is found again under, if any.
    spec fn container_tag_spec(&self) -> Option<u64>;

    /// The backtrace that comes with the container, if any.
    spec fn backtrace_spec(&self) -> Option<Seq<char>>;

    /// Returns the type tag the container is found again under, if any.
    fn container_tag(&self) -> (r: Option<u64>)
        ensures
            r == self.container_tag_spec(),
    ;

    /// The container is the source error itself, not a wrapper around it: only then can a new
    /// error take over an erased error of this library given as its source.
    spec fn bare_spec(&self) -> bool;

    /// Returns `true` if the container is the source error itself.
    fn is_bare(&self) -> (r: bool)
        ensures
            r == self.bare_spec(),
    ;

    /// The source error the container reports, if any: the node an error made from it keeps.
    fn error_ref(&self) -> (r: Option<&SourceNode>)
        ensures
            opt_node(r) == self.node_spec(),
    ;

    /// The source error the container reports, by mutable reference, if any.
    fn error_mut(&mut self) -> (r: Option<&mut SourceNode>)
        ensures
            r is Some <==> old(self).node_spec() is Some,
            r matches Some(n) ==> old(self).node_spec() == Some(*n),
            r is None ==> *final(self) == *old(self),
    ;

    /// The backtrace that comes with the container, if any: what a search for a backtrace
    /// finds first when it starts at the container.
    fn backtrace_ref(&self) -> (r: Option<&str>)
        ensures
            opt_text_of(r) == self.backtrace_spec(),
    ;

    /// The source error in the form a boxed source takes, if any.
    fn into_boxed(self) -> (r: Option<SourceNode>)
        ensures
            r is Some <==> self.node_spec() is Some,
    ;

    /// Moves the source node, and the backtrace that comes with it, out of the container.
    fn into_stored(self) -> (r: (Option<SourceNode>, Option<String>))
        ensures
            r.0 == self.node_spec(),
            opt_str(r.1) == self.backtrace_spec(),
    ;

    /// Hands the container back as `Ok` when it is found under `tag`, and as `Err` otherwise.
    fn downcast_container(self, tag: u64) -> (r: Result<Self, Self>)
        ensures
            match r {
                Ok(s) => s == self && self.container_tag_spec() == Some(tag),
                Err(s) => s == self && self.container_tag_spec() != Some(tag),
            },
    ;

    /// The backtrace layer the container is, if it is one.
    fn into_backtrace(self) -> (r: Option<WithBacktrace>)
        default_ensures
            r is None,
    {
        None
    }
}

/// The backtrace that comes with `source`, if any.
pub open spec fn source_backtrace<E: Source>(source: Option<E>) -> Option<Seq<char>> {
    match source {
        Some(e) => e.backtrace_spec(),
        None => None,
    }
}

/// No source, or a source given as the error itself (see [`Source::bare_spec`]).
pub open spec fn source_bare<E: Source>(source: Option<E>) -> bool {
    match source {
        Some(e) => e.bare_spec(),
        None => true,
    }
}

/// The type tag the source of an error made from `source` is found again under.
pub open spec fn source_container<E: Source>(source: Option<E>) -> Option<u64> {
    match source {
        Some(e) => e.container_tag_spec(),
        None => None,
    }
}

/// The source node an error made from `source` keeps.
pub open spec fn source_node<E: Source>(source: Option<E>) -> Option<SourceNode> {
    match source {
        Some(e) => e.node_spec(),
        None => None,
    }
}

/// A source error itself: a foreign error, or an error of this library with its state erased.
impl Source for SourceNode {
    open spec fn node_spec(&self) -> Option<SourceNode> {
        Some(*self)
    }

    open spec fn container_tag_spec(&self) -> Option<u64> {
        Some(node_tag(*self))
    }

    open spec fn backtrace_spec(&self) -> Option<Seq<char>> {
        None
    }

    open spec fn bare_spec(&self) -> bool {
        true
    }

    fn is_bare(&self) -> (r: bool) {
        true
    }

    fn container_tag(&self) -> (r: Option<u64>) {
        Some(self.type_tag())
    }

    fn backtrace_ref(&self) -> (r: Option<&str>) {
        None
    }

    fn error_ref(&self) -> (r: Option<&SourceNode>)
        ensures
            r == Some(self),
    {
        Some(self)
    }

    fn error_mut(&mut self) -> (r: Option<&mut SourceNode>)
        ensures
            r is Some && *r->Some_0 == *old(self) && *final(self) == *final(r->Some_0),
    {
        Some(self)
    }

    fn into_boxed(self) -> (r: Option<SourceNode>)
        ensures
            match r {
                Some(n) => boxed_form(self, n),
                None => false,
            },
    {
        Some(self.into_boxed_node())
    }

    fn into_stored(self) -> (r: (Option<SourceNode>, Option<String>)) {
        (Some(self), None)
    }

    fn downcast_container(self, tag: u64) -> (r: Result<Self, Self>) {
        if self.type_tag() == tag {
            Ok(self)
        } else {
            Err(self)
        }
    }
}

/// The absence of a source.
pub struct NoSource;

impl Source for NoSource {
    open spec fn node_spec(&self) -> Option<SourceNode> {
        None
    }

    open spec fn container_tag_spec(&self) -> Option<u64> {
        None
    }

    open spec fn backtrace_spec(&self) -> Option<Seq<char>> {
        None
    }

    open spec fn bare_spec(&self) -> bool {
        false
    }

    fn is_bare(&self) -> (r: bool) {
        false
    }

    fn container_tag(&self) -> (r: Option<u64>) {
        None
    }

    fn backtrace_ref(&self) -> (r: Option<&str>) {
        None
    }

    fn error_ref(&self) -> (r: Option<&SourceNode>) {
        None
    }

    fn error_mut(&mut self) -> (r: Option<&mut SourceNode>) {
        None
    }

    fn into_boxed(self) -> (r: Option<SourceNode>) {
        None
    }

    fn into_stored(self) -> (r: (Option<SourceNode>, Option<String>)) {
        (None, None)
    }

    fn downcast_container(self, tag: u64) -> (r: Result<Self, Self>) {
        Err(self)
    }
}

/// A source that is already boxed. It is kept as it is, and found again under
/// [`BOXED_ERROR_TAG`].
pub struct BoxedSource(pub SourceNode);

impl Source for BoxedSource {
    open spec fn node_spec(&self) -> Option<SourceNode> {
        Some(self.0)
    }

    open spec fn container_tag_spec(&self) -> Option<u64> {
        Some(BOXED_ERROR_TAG)
    }

    open spec fn backtrace_spec(&self) -> Option<Seq<char>> {
        None
    }

    open spec fn bare_spec(&self) -> bool {
        false
    }

    fn is_bare(&self) -> (r: bool) {
        false
    }

    fn container_tag(&self) -> (r: Option<u64>) {
        Some(BOXED_ERROR_TAG)
    }

    fn backtrace_ref(&self) -> (r: Option<&str>) {
        None
    }

    fn error_ref(&self) -> (r: Option<&SourceNode>)
        ensures
            r == Some(&self.0),
    {
        Some(&self.0)
    }

    fn error_mut(&mut self) -> (r: Option<&mut SourceNode>)
        ensures
            r is Some && *r->Some_0 == old(self).0 && final(self).0 == *final(r->Some_0),
    {
        Some(&mut self.0)
    }

    fn into_boxed(self) -> (r: Option<SourceNode>)
        ensures
            r == Some(self.0),
    {
        Some(self.0)
    }

    fn into_stored(self) -> (r: (Option<SourceNode>, Option<String>)) {
        (Some(self.0), None)
    }

    fn downcast_container(self, tag: u64) -> (r: Result<Self, Self>) {
        if tag == BOXED_ERROR_TAG {
            Ok(self)
        } else {
            Err(self)
        }
    }
}

/// An error of this library that only wraps a source, used as a source in its turn: it
/// reports the source it wraps (the node the wrapped error keeps), and is found again under
/// [`ERRATIC_TAG`].
pub struct IndirectSource(RawError<Stateless>);

impl IndirectSource {
    /// The wrapped error.
    pub closed spec fn raw_spec(&self) -> RawError<Stateless> {
        self.0
    }

    /// Wraps an error that only wraps a source; any other error is handed back.
    pub fn try_new(raw: RawError<Stateless>) -> (r: Result<IndirectSource, RawError<Stateless>>)
        ensures
            r is Ok <==> raw.is_source_only_spec(),
            r matches Ok(s) ==> s.raw_spec() == raw,
            r matches Err(e) ==> e == raw,
    {
        if raw.is_source_only() {
            Ok(IndirectSource(raw))
        } else {
            Err(raw)
        }
    }
}

impl Source for IndirectSource {
    open spec fn node_spec(&self) -> Option<SourceNode> {
        self.raw_spec().src_spec()
    }

    open spec fn container_tag_spec(&self) -> Option<u64> {
        Some(ERRATIC_TAG)
    }

    open spec fn backtrace_spec(&self) -> Option<Seq<char>> {
        None
    }

    open spec fn bare_spec(&self) -> bool {
        false
    }

    fn is_bare(&self) -> (r: bool) {
        false
    }

    fn container_tag(&self) -> (r: Option<u64>) {
        Some(ERRATIC_TAG)
    }

    fn backtrace_ref(&self) -> (r: Option<&str>) {
        None
    }

    fn error_ref(&self) -> (r: Option<&SourceNode>) {
        match &self.0 {
            RawError::Boxed(b) => b.source.as_ref(),
            _ => None,
        }
    }

    fn error_mut(&mut self) -> (r: Option<&mut SourceNode>)
        ensures
            r matches Some(n) ==> {
                &&& old(self).node_spec() == Some(*n)
                &&& final(self).raw_spec() == with_source(old(self).raw_spec(), *final(n))
            },
    {
        self.0.source_mut()
    }

    fn into_boxed(self) -> (r: Option<SourceNode>)
        ensures
            r matches Some(n) ==> boxed_form(self.node_spec()->Some_0, n),
    {
        self.0.into_source()
    }

    fn into_stored(self) -> (r: (Option<SourceNode>, Option<String>)) {
        match self.0 {
            RawError::Boxed(b) => ((*b).source, None),
            _ => (None, None),
        }
    }

    fn downcast_container(self, tag: u64) -> (r: Result<Self, Self>) {
        if tag == ERRATIC_TAG {
            Ok(self)
        } else {
            Err(self)
        }
    }
}

/// A source, if any, together with the backtrace captured when it was wrapped. It reports the
/// wrapped source, is found again under the wrapped source's type tag, and hands its backtrace
/// on to the error made from it.
pub struct WithBacktraceSource(pub WithBacktrace);

impl Source for WithBacktraceSource {
    open spec fn node_spec(&self) -> Option<SourceNode> {
        self.0.source_spec()
    }

    open spec fn container_tag_spec(&self) -> Option<u64> {
        match self.0.source_spec() {
            Some(n) => Some(node_tag(n)),
            None => None,
        }
    }

    open spec fn backtrace_spec(&self) -> Option<Seq<char>> {
        Some(self.0.backtrace_spec())
    }

    open spec fn bare_spec(&self) -> bool {
        false
    }

    fn is_bare(&self) -> (r: bool) {
        false
    }

    fn container_tag(&self) -> (r: Option<u64>) {
        match self.0.source() {
            Some(n) => Some(n.type_tag()),
            None => None,
        }
    }

    fn backtrace_ref(&self) -> (r: Option<&str>) {
        Some(self.0.backtrace())
    }

    fn error_ref(&self) -> (r: Option<&SourceNode>)
        ensures
            opt_node(r) == self.0.source_spec(),
    {
        self.0.source()
    }

    fn error_mut(&mut self) -> (r: Option<&mut SourceNode>)
        ensures
            r matches Some(n) ==> {
                &&& old(self).0.source_spec() == Some(*n)
                &&& final(self).0.source_spec() == Some(*final(n))
                &&& final(self).0.backtrace_spec() == old(self).0.backtrace_spec()
            },
    {
        self.0.source_mut()
    }

    fn into_boxed(self) -> (r: Option<SourceNode>)
        ensures
            r == self.0.source_spec(),
    {
        self.0.into_source()
    }

    fn into_stored(self) -> (r: (Option<SourceNode>, Option<String>)) {
        let text = self.0.backtrace().to_string();
        (self.0.into_source(), Some(text))
    }

    fn downcast_container(self, tag: u64) -> (r: Result<Self, Self>) {
        let found = match self.0.source() {
            Some(n) => n.type_tag() == tag,
            None => false,
        };
        if found {
            Ok(self)
        } else {
            Err(self)
        }
    }

    fn into_backtrace(self) -> (r: Option<WithBacktrace>)
        ensures
            r == Some(self.0),
    {
        Some(self.0)
    }
}

} // verus!
