//! Backtraces attached to errors.
//!
//! A backtrace is kept in the body of the error whose source it was captured for, beside that
//! source. It is no layer of the chain: only a search for a backtrace sees it. The default
//! build captures none ([`WithBacktrace::try_attach`]); a build that captures decides with
//! [`WithBacktrace::attach_step`] and [`WithBacktrace::finish_attach`], and keeps the flags
//! that say whether capture is disabled and whether a search is going on.
use vstd::prelude::*;

use crate::raw::source::{Source, WithBacktraceSource};
use crate::raw::{node_tag, opt_str, Inner, SourceNode};

verus! {

/// The first backtrace found along the chain that starts at the source `n`: a body that holds
/// one gives it, and the search goes on with its source otherwise.
pub open spec fn node_backtrace(n: SourceNode) -> Option<Seq<char>>
    decreases n,
{
    match n {
        SourceNode::Foreign(f) => match f.source {
            Some(m) => node_backtrace(*m),
            None => None,
        },
        SourceNode::Erratic(e) => match e.inner {
            Inner::Boxed(b) => match b.backtrace {
                Some(t) => Some(t@),
                None => match b.source {
                    Some(m) => node_backtrace(m),
                    None => None,
                },
            },
            _ => None,
        },
    }
}

/// The first backtrace found along the chain that starts at `source`, if any.
pub open spec fn chain_backtrace(source: Option<SourceNode>) -> Option<Seq<char>> {
    match source {
        Some(n) => node_backtrace(n),
        None => None,
    }
}

/// The container holds a backtrace already: its own, or one along the chain of its source.
pub open spec fn holds_backtrace<E: Source>(err: E) -> bool {
    err.backtrace_spec() is Some || chain_backtrace(err.node_spec()) is Some
}

/// The source a reference points to, if any.
pub open spec fn opt_node(source: Option<&SourceNode>) -> Option<SourceNode> {
    match source {
        Some(n) => Some(*n),
        None => None,
    }
}

/// The text a string slice holds, if any.
pub open spec fn opt_text_of(r: Option<&str>) -> Option<Seq<char>> {
    match r {
        Some(t) => Some(t@),
        None => None,
    }
}

/// A source error, if any, together with the backtrace captured when it was wrapped.
pub struct WithBacktrace {
    err: Option<SourceNode>,
    backtrace: String,
}

/// The backtrace type of std, carried through opaque.
#[verifier::external_type_specification]
#[verifier::external_body]
pub struct ExBacktrace(std::backtrace::Backtrace);

/// Captures a backtrace of the current thread with `std::backtrace::Backtrace::capture`. Whether
/// frames are captured depends on the environment, so nothing is stated of the outcome.
#[verifier::external_body]
fn capture_std_backtrace() -> (r: std::backtrace::Backtrace) {
    std::backtrace::Backtrace::capture()
}

/// Whether `std::backtrace::Backtrace::status` reports the backtrace as captured; nothing is
/// stated of the outcome, which depends on the environment at capture.
#[verifier::external_body]
fn is_captured(backtrace: &std::backtrace::Backtrace) -> (r: bool) {
    matches!(backtrace.status(), std::backtrace::BacktraceStatus::Captured)
}

/// The backtrace rendered by its `Display` implementation; nothing is stated of the text.
#[verifier::external_body]
fn render_backtrace(backtrace: &std::backtrace::Backtrace) -> (r: String) {
    format!("{}", backtrace)
}

/// Captures a backtrace of the current thread and gives its rendering, or `None` when the
/// environment leaves capture off.
fn capture_backtrace() -> (r: Option<String>) {
    let backtrace = capture_std_backtrace();
    if is_captured(&backtrace) {
        Some(render_backtrace(&backtrace))
    } else {
        None
    }
}

/// The first backtrace along the chain that starts at the source `n`.
fn node_search(n: &SourceNode) -> (r: Option<&str>)
    ensures
        opt_text_of(r) == node_backtrace(*n),
    decreases n,
{
    match n {
        SourceNode::Foreign(f) => match &f.source {
            Some(m) => node_search(m),
            None => None,
        },
        SourceNode::Erratic(e) => match &e.inner {
            Inner::Boxed(b) => match &b.backtrace {
                Some(t) => Some(t.as_str()),
                None => match &b.source {
                    Some(m) => node_search(m),
                    None => None,
                },
            },
            _ => None,
        },
    }
}

impl WithBacktrace {
    /// The wrapped source error, if any.
    pub closed spec fn source_spec(&self) -> Option<SourceNode> {
        self.err
    }

    /// The rendered backtrace.
    pub closed spec fn backtrace_spec(&self) -> Seq<char> {
        self.backtrace@
    }

    /// Puts a source, if any, together with a backtrace.
    pub(crate) fn new(err: Option<SourceNode>, backtrace: String) -> (r: WithBacktrace)
        ensures
            r.source_spec() == err,
            r.backtrace_spec() == backtrace@,
    {
        WithBacktrace { err, backtrace }
    }

    /// Attaches a backtrace to the error, unless its chain already has one. This build
    /// captures no backtrace, so the error is handed back.
    pub fn try_attach<E: Source>(err: E) -> (r: Result<WithBacktraceSource, E>)
        ensures
            r == Err::<WithBacktraceSource, E>(err),
    {
        Err(err)
    }

    /// Whether a backtrace is to be captured for an error whose chain starts at `chain`:
    /// capture is not disabled, and the chain holds no backtrace yet.
    pub fn attach_step(disabled: bool, chain: Option<&SourceNode>) -> (r: bool)
        ensures
            r == (!disabled && chain_backtrace(opt_node(chain)) is None),
    {
        if disabled {
            false
        } else {
            Self::search(chain).is_none()
        }
    }

    /// Finishes an attempt to attach a backtrace: with a captured backtrace, the error is
    /// wrapped together with it; without one, the error is handed back and capture is to be
    /// disabled from then on (the second value).
    pub fn finish_attach<E: Source>(err: E, captured: Option<String>) -> (r: (
        Result<WithBacktraceSource, E>,
        bool,
    ))
        ensures
            match captured {
                Some(t) => {
                    &&& r.0 matches Ok(w) && w.0.source_spec() == err.node_spec()
                        && w.0.backtrace_spec() == t@
                    &&& !r.1
                },
                None => r.0 == Err::<WithBacktraceSource, E>(err) && r.1,
            },
    {
        match captured {
            Some(t) => {
                let (node, _) = err.into_stored();
                (Ok(WithBacktraceSource(WithBacktrace::new(node, t))), false)
            },
            None => (Err(err), true),
        }
    }

    /// Attaches a backtrace to the error when capture is not `disabled`, the error holds no
    /// backtrace along its chain yet (see [`holds_backtrace`]), and the environment lets one be
    /// captured. The second value says whether capture is to be disabled from then on: it is,
    /// after an attempt that captured nothing.
    pub fn try_attach_captured<E: Source>(err: E, disabled: bool) -> (r: (
        Result<WithBacktraceSource, E>,
        bool,
    ))
        ensures
            (disabled || holds_backtrace(err)) ==> r == (Err::<WithBacktraceSource, E>(err), false),
            (r.0 is Ok || r.1) ==> !disabled && !holds_backtrace(err),
            r.0 matches Ok(w) ==> w.0.source_spec() == err.node_spec() && !r.1,
            r.0 matches Err(x) ==> x == err,
    {
        if disabled || err.backtrace_ref().is_some() {
            return (Err(err), false);
        }
        if !Self::attach_step(disabled, err.error_ref()) {
            return (Err(err), false);
        }
        Self::finish_attach(err, capture_backtrace())
    }

    /// Returns `true` while a search for a backtrace is going on, during which a backtrace
    /// shows itself in a chain. The flag is kept where searches run; none runs in this
    /// library, whose search reads the backtraces kept in bodies directly.
    pub fn searching() -> (r: bool)
        ensures
            !r,
    {
        false
    }

    /// The first backtrace along the chain that starts at `source`.
    pub fn search(source: Option<&SourceNode>) -> (r: Option<&str>)
        ensures
            opt_text_of(r) == chain_backtrace(opt_node(source)),
    {
        match source {
            Some(n) => node_search(n),
            None => None,
        }
    }

    /// The first backtrace along the chain that starts at `source`, for debug output.
    pub fn search_debug(source: Option<&SourceNode>) -> (r: Option<String>)
        ensures
            opt_str(r) == chain_backtrace(opt_node(source)),
    {
        match Self::search(source) {
            Some(t) => Some(t.to_string()),
            None => None,
        }
    }

    /// The first backtrace along the chain that starts at `source`, for display.
    pub fn search_display(source: Option<&SourceNode>) -> (r: Option<String>)
        ensures
            opt_str(r) == chain_backtrace(opt_node(source)),
    {
        Self::search_debug(source)
    }

    /// The wrapped source error, if any.
    pub fn source(&self) -> (r: Option<&SourceNode>)
        ensures
            opt_node(r) == self.source_spec(),
    {
        self.err.as_ref()
    }

    /// The wrapped source error, by mutable reference, if any.
    pub fn source_mut(&mut self) -> (r: Option<&mut SourceNode>)
        ensures
            r is Some <==> old(self).source_spec() is Some,
            r matches Some(n) ==> {
                &&& old(self).source_spec() == Some(*n)
                &&& final(self).source_spec() == Some(*final(n))
                &&& final(self).backtrace_spec() == old(self).backtrace_spec()
            },
            r is None ==> *final(self) == *old(self),
    {
        match &mut self.err {
            Some(n) => Some(n),
            None => None,
        }
    }

    /// Gives the wrapped source error up when it has type `tag`; otherwise keeps it.
    pub fn take_source(self, tag: u64) -> (r: Result<SourceNode, WithBacktrace>)
        ensures
            r is Ok <==> (self.source_spec() matches Some(n) && node_tag(n) == tag),
            r matches Ok(n) ==> Some(n) == self.source_spec(),
            r matches Err(w) ==> w == self,
    {
        let matches_tag = match &self.err {
            Some(n) => n.type_tag() == tag,
            None => false,
        };
        if matches_tag {
            match self.err {
                Some(n) => Ok(n),
                None => Err(WithBacktrace { err: None, backtrace: self.backtrace }),
            }
        } else {
            Err(self)
        }
    }

    /// Gives back the wrapped source error, if any.
    pub fn into_source(self) -> (r: Option<SourceNode>)
        ensures
            r == self.source_spec(),
    {
        self.err
    }

    /// The rendered backtrace.
    pub fn backtrace(&self) -> (r: &str)
        ensures
            r@ == self.backtrace_spec(),
    {
        self.backtrace.as_str()
    }
}

} // verus!
