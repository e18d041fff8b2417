//! The struct-like debug form of an error, as `{:#?}` prints it: the name `Error`, then one
//! indented line for each part the error has (`state`, `context`, `source` and `backtrace`, in
//! this order), each ending in a comma, then a closing brace. A source is shown as the error it
//! reports: one of this library in the same form, indented once more (one that only wraps a
//! source gives way to that source), and a foreign one by its own debug text. An error with no
//! part at all is shown as the name alone.
use vstd::prelude::*;

use crate::backtrace::chain_backtrace;
use crate::raw::{ctx_text, erased_chain, opt_str, quote, quoted, DynBody, ErasedRawError, Inner, RawError, SourceNode};
use crate::raw::state::Store;
use crate::render::{
    backtrace_suffix, chain_render, chain_texts, format_chain, format_debug, link_texts, links_view,
    push_erased_chain, ChainLink,
};
use crate::state::State;

verus! {

/// The indentation of a line inside the struct form.
pub open spec fn indent_spaces() -> Seq<char> {
    seq![' ', ' ', ' ', ' ']
}

/// `t` written through an indenting writer: four spaces start every line, a line being begun
/// by the first character when `at_line_start`, and by every character after a newline.
pub open spec fn padded(at_line_start: bool, t: Seq<char>) -> Seq<char>
    decreases t.len(),
{
    if t.len() == 0 {
        Seq::empty()
    } else {
        (if at_line_start {
            indent_spaces()
        } else {
            Seq::empty()
        }) + seq![t[0]] + padded(t[0] == '\n', t.drop_first())
    }
}

/// One part of the struct form: `<name>: <value>,` and a newline, indented.
pub open spec fn field_text(name: Seq<char>, value: Seq<char>) -> Seq<char> {
    padded(true, name + seq![':', ' '] + value + seq![',', '\n'])
}

pub open spec fn name_error() -> Seq<char> {
    seq!['E', 'r', 'r', 'o', 'r']
}

pub open spec fn name_state() -> Seq<char> {
    seq!['s', 't', 'a', 't', 'e']
}

pub open spec fn name_context() -> Seq<char> {
    seq!['c', 'o', 'n', 't', 'e', 'x', 't']
}

pub open spec fn name_source() -> Seq<char> {
    seq!['s', 'o', 'u', 'r', 'c', 'e']
}

pub open spec fn name_backtrace() -> Seq<char> {
    seq!['b', 'a', 'c', 'k', 't', 'r', 'a', 'c', 'e']
}

pub open spec fn name_payload() -> Seq<char> {
    seq!['p', 'a', 'y', 'l', 'o', 'a', 'd']
}

/// A text in quotes, if any.
pub open spec fn opt_quoted(t: Option<Seq<char>>) -> Option<Seq<char>> {
    match t {
        Some(c) => Some(quoted(c)),
        None => None,
    }
}

/// A field that may be missing, as a list of at most one name and value.
pub open spec fn opt_entry(name: Seq<char>, value: Option<Seq<char>>) -> Seq<(Seq<char>, Seq<char>)> {
    match value {
        Some(v) => seq![(name, v)],
        None => Seq::empty(),
    }
}

/// The fields of a debug struct, in order, for the parts that are there: `state`, `context`
/// and `payload` (both in quotes), `source`, `backtrace`.
pub open spec fn debug_entries(
    state: Option<Seq<char>>,
    context: Option<Seq<char>>,
    payload: Option<Seq<char>>,
    source: Option<Seq<char>>,
    backtrace: Option<Seq<char>>,
) -> Seq<(Seq<char>, Seq<char>)> {
    opt_entry(name_state(), state) + opt_entry(name_context(), opt_quoted(context)) + opt_entry(
        name_payload(),
        opt_quoted(payload),
    ) + opt_entry(name_source(), source) + opt_entry(name_backtrace(), backtrace)
}

/// The fields in the alternate form: one indented line each.
pub open spec fn pretty_entries(es: Seq<(Seq<char>, Seq<char>)>) -> Seq<char>
    decreases es.len(),
{
    if es.len() == 0 {
        Seq::empty()
    } else {
        pretty_entries(es.drop_last()) + field_text(es.last().0, es.last().1)
    }
}

/// One field in the compact form: `<name>: <value>`.
pub open spec fn entry_text(e: (Seq<char>, Seq<char>)) -> Seq<char> {
    e.0 + seq![':', ' '] + e.1
}

/// The fields in the compact form, separated by `, `.
pub open spec fn compact_entries(es: Seq<(Seq<char>, Seq<char>)>) -> Seq<char>
    decreases es.len(),
{
    if es.len() == 0 {
        Seq::empty()
    } else if es.len() == 1 {
        entry_text(es[0])
    } else {
        compact_entries(es.drop_last()) + seq![',', ' '] + entry_text(es.last())
    }
}

/// The fields in either form.
pub open spec fn render_entries(alternate: bool, es: Seq<(Seq<char>, Seq<char>)>) -> Seq<char> {
    if alternate {
        pretty_entries(es)
    } else {
        compact_entries(es)
    }
}

/// A debug struct named `name` with the given parts, as `Debug` prints one: the name alone
/// without fields; otherwise `<name> { <field>, .. }`, or, with `alternate`, the name and a
/// brace, then one indented line per field ending in a comma, then a closing brace.
pub open spec fn debug_struct(
    name: Seq<char>,
    alternate: bool,
    state: Option<Seq<char>>,
    context: Option<Seq<char>>,
    payload: Option<Seq<char>>,
    source: Option<Seq<char>>,
    backtrace: Option<Seq<char>>,
) -> Seq<char> {
    let es = debug_entries(state, context, payload, source, backtrace);
    if es.len() == 0 {
        name
    } else if alternate {
        name + seq![' ', '{', '\n'] + pretty_entries(es) + seq!['}']
    } else {
        name + seq![' ', '{', ' '] + compact_entries(es) + seq![' ', '}']
    }
}

/// The struct form of an error with the given parts: the state's debug text, the context's
/// text (shown in quotes), the source's debug text, and the backtrace.
pub open spec fn struct_form(
    state: Option<Seq<char>>,
    context: Option<Seq<char>>,
    source: Option<Seq<char>>,
    backtrace: Option<Seq<char>>,
) -> Seq<char> {
    debug_struct(name_error(), true, state, context, None, source, backtrace)
}

/// The backtrace a body shows: its own, or else the first one along its source's chain.
pub open spec fn body_backtrace<S>(b: DynBody<S>) -> Option<Seq<char>> {
    match b.backtrace {
        Some(t) => Some(t@),
        None => chain_backtrace(b.source),
    }
}

/// The struct form of a source error; the backtrace is left out when `show_less`. The source
/// of an error of this library is shown as the error it reports (see
/// [`crate::raw::node_error_ref`]): one that only wraps a source gives way to that source.
pub open spec fn node_struct(n: SourceNode, show_less: bool) -> Seq<char>
    decreases n, 0nat,
{
    match n {
        SourceNode::Foreign(f) => f.debug@,
        SourceNode::Erratic(e) => match e.inner {
            Inner::Const(c) => struct_form(None, Some(c.context@), None, None),
            Inner::Inline(x) => struct_form(Some(x.text_spec()), None, None, None),
            Inner::Boxed(b) => struct_form(
                b.state.text_spec(),
                ctx_text(b.ctx_spec()),
                match b.source {
                    Some(m) => Some(reported_struct(m, show_less)),
                    None => None,
                },
                if show_less {
                    None
                } else {
                    body_backtrace(*b)
                },
            ),
        },
    }
}

/// The struct form of the error a source reports: an error of this library that only wraps a
/// source gives way to that source.
pub open spec fn reported_struct(n: SourceNode, show_less: bool) -> Seq<char>
    decreases n, 1nat,
{
    match n {
        SourceNode::Erratic(e) => match e.inner {
            Inner::Boxed(b) => if b.is_source_only_spec() {
                match b.source {
                    Some(m) => reported_struct(m, show_less),
                    None => node_struct(n, show_less),
                }
            } else {
                node_struct(n, show_less)
            },
            _ => node_struct(n, show_less),
        },
        _ => node_struct(n, show_less),
    }
}

/// The struct form of an erased error.
pub open spec fn erased_struct(e: ErasedRawError, show_less: bool) -> Seq<char> {
    node_struct(SourceNode::Erratic(Box::new(e)), show_less)
}

/// The struct form of an error.
pub open spec fn raw_struct<S: State>(e: RawError<S>, show_less: bool) -> Seq<char> {
    struct_form(
        e.state_text_spec(),
        ctx_text(e.ctx_spec()),
        match e.src_spec() {
            Some(m) => Some(reported_struct(m, show_less)),
            None => None,
        },
        if show_less {
            None
        } else {
            e.backtrace_spec()
        },
    )
}

/// Writes `t` through an indenting writer (see [`padded`]).
pub fn pad(at_line_start: bool, t: &str) -> (r: String)
    ensures
        r@ == padded(at_line_start, t@),
{
    proof {
        reveal_strlit("    ");
    }
    let n = t.unicode_len();
    let mut out = String::new();
    let mut start = at_line_start;
    let mut i: usize = 0;
    proof {
        assert(t@.subrange(0, n as int) =~= t@);
    }
    while i < n
        invariant
            n == t@.len(),
            i <= n,
            out@ + padded(start, t@.subrange(i as int, n as int)) == padded(at_line_start, t@),
        decreases n - i,
    {
        let ghost rest = t@.subrange(i as int, n as int);
        let ghost before = out@;
        proof {
            reveal_strlit("    ");
            assert("    "@ =~= indent_spaces());
        }
        if start {
            out.append("    ");
        }
        let c = t.substring_char(i, i + 1);
        out.append(c);
        let ch = t.get_char(i);
        proof {
            assert(rest[0] == ch);
            assert(rest.drop_first() =~= t@.subrange(i + 1, n as int));
            assert(c@ =~= seq![ch]);
            assert(out@ =~= before + (if start {
                indent_spaces()
            } else {
                Seq::empty()
            }) + seq![rest[0]]);
        }
        start = ch == '\n';
        i = i + 1;
    }
    proof {
        assert(t@.subrange(i as int, n as int) =~= Seq::<char>::empty());
        assert(out@ + Seq::<char>::empty() =~= out@);
    }
    out
}

/// Appends one part of the struct form.
fn push_field(out: &mut String, name: &str, value: &str)
    ensures
        final(out)@ == old(out)@ + field_text(name@, value@),
{
    proof {
        reveal_strlit(": ");
        reveal_strlit(",\n");
    }
    let mut line = String::from_str(name);
    line.append(": ");
    line.append(value);
    line.append(",\n");
    proof {
        assert(line@ =~= name@ + seq![':', ' '] + value@ + seq![',', '\n']);
    }
    let padded_line = pad(true, line.as_str());
    out.append(padded_line.as_str());
}

/// Appends a field that may be missing to the fields rendered so far.
fn add_entry(
    body: &mut String,
    count: usize,
    Ghost(es): Ghost<Seq<(Seq<char>, Seq<char>)>>,
    alternate: bool,
    name: &str,
    value: &Option<String>,
) -> (n: usize)
    requires
        count == es.len(),
        old(body)@ == render_entries(alternate, es),
        count < 8,
    ensures
        n == (es + opt_entry(name@, opt_str(*value))).len(),
        final(body)@ == render_entries(alternate, es + opt_entry(name@, opt_str(*value))),
{
    proof {
        reveal_strlit(": ");
        reveal_strlit(", ");
    }
    match value {
        None => {
            assert(es + opt_entry(name@, opt_str(*value)) =~= es);
            count
        },
        Some(v) => {
            let ghost grown = es + seq![(name@, v@)];
            assert(es + opt_entry(name@, opt_str(*value)) =~= grown);
            assert(grown.drop_last() =~= es);
            assert(grown.last() == (name@, v@));
            if alternate {
                push_field(body, name, v.as_str());
            } else {
                if count > 0 {
                    body.append(", ");
                }
                body.append(name);
                body.append(": ");
                body.append(v.as_str());
                assert(", "@ =~= seq![',', ' ']);
                assert(": "@ =~= seq![':', ' ']);
                if count == 0 {
                    assert(grown =~= seq![(name@, v@)]);
                }
            }
            count + 1
        },
    }
}

/// Renders a debug struct named `container_name` from the debug texts of the parts it has
/// (see [`debug_struct`]); the context and the payload are given as their display texts.
pub fn format_debug_struct(
    container_name: &str,
    alternate: bool,
    state: Option<String>,
    context: Option<String>,
    payload: Option<String>,
    source: Option<String>,
    backtrace: Option<String>,
) -> (r: String)
    ensures
        r@ == debug_struct(
            container_name@,
            alternate,
            opt_str(state),
            opt_str(context),
            opt_str(payload),
            opt_str(source),
            opt_str(backtrace),
        ),
{
    proof {
        reveal_strlit("state");
        reveal_strlit("context");
        reveal_strlit("payload");
        reveal_strlit("source");
        reveal_strlit("backtrace");
        reveal_strlit(" {\n");
        reveal_strlit("}");
        reveal_strlit(" { ");
        reveal_strlit(" }");
    }
    assert("state"@ =~= name_state());
    assert("context"@ =~= name_context());
    assert("payload"@ =~= name_payload());
    assert("source"@ =~= name_source());
    assert("backtrace"@ =~= name_backtrace());
    let quoted_context = match &context {
        Some(c) => Some(quote(c.as_str())),
        None => None,
    };
    let quoted_payload = match &payload {
        Some(p) => Some(quote(p.as_str())),
        None => None,
    };
    assert(opt_str(quoted_context) == opt_quoted(opt_str(context)));
    assert(opt_str(quoted_payload) == opt_quoted(opt_str(payload)));
    let mut body = String::new();
    let ghost e0 = Seq::<(Seq<char>, Seq<char>)>::empty();
    assert(body@ =~= render_entries(alternate, e0));
    let n = add_entry(&mut body, 0, Ghost(e0), alternate, "state", &state);
    let ghost e1 = e0 + opt_entry(name_state(), opt_str(state));
    let n = add_entry(&mut body, n, Ghost(e1), alternate, "context", &quoted_context);
    let ghost e2 = e1 + opt_entry(name_context(), opt_quoted(opt_str(context)));
    let n = add_entry(&mut body, n, Ghost(e2), alternate, "payload", &quoted_payload);
    let ghost e3 = e2 + opt_entry(name_payload(), opt_quoted(opt_str(payload)));
    let n = add_entry(&mut body, n, Ghost(e3), alternate, "source", &source);
    let ghost e4 = e3 + opt_entry(name_source(), opt_str(source));
    let n = add_entry(&mut body, n, Ghost(e4), alternate, "backtrace", &backtrace);
    let ghost e5 = e4 + opt_entry(name_backtrace(), opt_str(backtrace));
    assert(e5 =~= debug_entries(
        opt_str(state),
        opt_str(context),
        opt_str(payload),
        opt_str(source),
        opt_str(backtrace),
    ));
    let mut out = String::from_str(container_name);
    if n == 0 {
        return out;
    }
    if alternate {
        out.append(" {\n");
        out.append(body.as_str());
        out.append("}");
        assert(" {\n"@ =~= seq![' ', '{', '\n']);
        assert("}"@ =~= seq!['}']);
    } else {
        out.append(" { ");
        out.append(body.as_str());
        out.append(" }");
        assert(" { "@ =~= seq![' ', '{', ' ']);
        assert(" }"@ =~= seq![' ', '}']);
    }
    out
}

/// Renders the struct form of an error with the given parts (see [`struct_form`]).
pub fn format_struct(
    state: Option<String>,
    context: Option<String>,
    source: Option<String>,
    backtrace: Option<String>,
) -> (r: String)
    ensures
        r@ == struct_form(opt_str(state), opt_str(context), opt_str(source), opt_str(backtrace)),
{
    proof {
        reveal_strlit("Error");
    }
    assert("Error"@ =~= name_error());
    format_debug_struct("Error", true, state, context, None, source, backtrace)
}

/// The text of the context of a body, if any.
fn body_context<S: State>(b: &DynBody<S>) -> (r: Option<String>)
    ensures
        match r {
            Some(t) => ctx_text(b.ctx_spec()) == Some(t@),
            None => ctx_text(b.ctx_spec()) is None,
        },
{
    match &b.context {
        Some(c) => Some(c.text.clone()),
        None => None,
    }
}

/// The backtrace a body shows (see [`body_backtrace`]).
fn body_backtrace_text<S: State>(b: &DynBody<S>) -> (r: Option<String>)
    ensures
        opt_str(r) == body_backtrace(*b),
{
    match &b.backtrace {
        Some(t) => Some(t.clone()),
        None => crate::backtrace::WithBacktrace::search_debug(b.source.as_ref()),
    }
}

/// Renders the struct form of a source error.
pub fn format_node_struct(n: &SourceNode, show_less: bool) -> (r: String)
    ensures
        r@ == node_struct(*n, show_less),
    decreases n, 1nat,
{
    match n {
        SourceNode::Foreign(f) => f.debug.clone(),
        SourceNode::Erratic(e) => format_erased_struct(e, show_less),
    }
}

/// Renders the struct form of the error a source reports (see [`reported_struct`]).
pub fn format_reported_struct(n: &SourceNode, show_less: bool) -> (r: String)
    ensures
        r@ == reported_struct(*n, show_less),
    decreases n, 2nat,
{
    match n {
        SourceNode::Erratic(e) => match &e.inner {
            Inner::Boxed(b) => {
                if b.is_source_only() {
                    match &b.source {
                        Some(m) => format_reported_struct(m, show_less),
                        None => format_node_struct(n, show_less),
                    }
                } else {
                    format_node_struct(n, show_less)
                }
            },
            _ => format_node_struct(n, show_less),
        },
        _ => format_node_struct(n, show_less),
    }
}

/// Renders the struct form of an erased error.
pub fn format_erased_struct(e: &ErasedRawError, show_less: bool) -> (r: String)
    ensures
        r@ == erased_struct(*e, show_less),
    decreases e, 0nat,
{
    match &e.inner {
            Inner::Const(c) => format_struct(None, Some(String::from_str(c.context)), None, None),
            Inner::Inline(x) => format_struct(Some(x.debug_text()), None, None, None),
            Inner::Boxed(b) => {
                let source = match &b.source {
                    Some(m) => Some(format_reported_struct(m, show_less)),
                    None => None,
                };
                let backtrace = if show_less {
                    None
                } else {
                    body_backtrace_text(b)
                };
                format_struct(b.state.format_debug(), body_context(b), source, backtrace)
            },
    }
}

/// Renders the struct form of an error.
pub fn format_raw_struct<S: State>(e: &RawError<S>, show_less: bool) -> (r: String)
    ensures
        r@ == raw_struct(*e, show_less),
{
    match e {
        RawError::Const(c) => format_struct(None, Some(String::from_str(c.context)), None, None),
        RawError::Inline(x) => format_struct(Some(x.borrow_value().debug_text()), None, None, None),
        RawError::Boxed(b) => {
            let source = match &b.source {
                Some(m) => Some(format_reported_struct(m, show_less)),
                None => None,
            };
            let backtrace = if show_less {
                None
            } else {
                body_backtrace_text(b)
            };
            format_struct(b.state.format_debug(), body_context(b), source, backtrace)
        },
    }
}

/// The error shows a message of its own (a state, present or frozen, or a context).
pub open spec fn erased_has_info(e: ErasedRawError) -> bool {
    match e.inner {
        Inner::Boxed(b) => b.has_info_spec(),
        _ => true,
    }
}

/// The backtrace an erased error shows: the one kept in its body, or else the first one along
/// its source's chain.
pub open spec fn erased_backtrace(e: ErasedRawError) -> Option<Seq<char>> {
    match e.inner {
        Inner::Boxed(b) => body_backtrace(*b),
        _ => None,
    }
}

/// The text after the chain in a debug message: the backtrace, unless `show_less`.
pub open spec fn trailer(backtrace: Option<Seq<char>>, show_less: bool) -> Seq<char> {
    match backtrace {
        Some(b) => if show_less {
            Seq::empty()
        } else {
            backtrace_suffix(b)
        },
        None => Seq::empty(),
    }
}

/// A debug message: the chain, then, unless `show_less`, the backtrace after a `Backtrace:`
/// line.
pub fn format_debug_tail(chain: String, show_less: bool, backtrace: Option<String>) -> (r: String)
    ensures
        r@ == chain@ + trailer(opt_str(backtrace), show_less),
{
    let mut r = chain;
    match backtrace {
        Some(b) => {
            if !show_less {
                let ghost before = r@;
                proof {
                    reveal_strlit("\nBacktrace:\n");
                }
                r.append("\nBacktrace:\n");
                r.append(b.as_str());
                assert(r@ =~= before + backtrace_suffix(b@));
            }
        },
        None => {
            assert(r@ =~= r@ + Seq::<char>::empty());
        },
    }
    r
}

impl<S: State> RawError<S> {
    /// The debug message of the error, as `{:?}` prints it: the message with its chain, then
    /// its backtrace; or, with `alternate` (`{:#?}`), the struct form. `show_less` (the minus
    /// flag) leaves the backtrace out.
    pub fn debug_string(&self, alternate: bool, show_less: bool) -> (r: String)
        ensures
            alternate ==> r@ == raw_struct(*self, show_less),
            !alternate ==> r@ == chain_render(self.has_info_spec(), chain_texts(self.chain_spec()))
                + trailer(self.backtrace_spec(), show_less),
    {
        if alternate {
            format_raw_struct(self, show_less)
        } else {
            match self.backtrace() {
                Some(b) => format_debug(self, show_less, Some(b.as_str())),
                None => format_debug(self, show_less, None),
            }
        }
    }
}

impl ErasedRawError {
    /// The debug message of the erased error (see [`RawError::debug_string`]).
    pub fn debug_string(&self, alternate: bool, show_less: bool) -> (r: String)
        ensures
            alternate ==> r@ == erased_struct(*self, show_less),
            !alternate ==> r@ == chain_render(erased_has_info(*self), chain_texts(erased_chain(*self)))
                + trailer(erased_backtrace(*self), show_less),
    {
        if alternate {
            return format_erased_struct(self, show_less);
        }
        let mut r = self.to_string_alt();
        let backtrace = match &self.inner {
            Inner::Boxed(b) => body_backtrace_text(b),
            _ => None,
        };
        match backtrace {
            Some(b) => {
                if !show_less {
                    let ghost before = r@;
                    proof {
                        reveal_strlit("\nBacktrace:\n");
                    }
                    r.append("\nBacktrace:\n");
                    r.append(b.as_str());
                    assert(r@ =~= before + backtrace_suffix(b@));
                }
            },
            None => {},
        }
        r
    }

    /// The message of the erased error followed by its chain, as its alternate `Display`
    /// prints it.
    pub fn to_string_alt(&self) -> (r: String)
        ensures
            r@ == chain_render(erased_has_info(*self), chain_texts(erased_chain(*self))),
    {
        let mut links: Vec<ChainLink> = Vec::new();
        push_erased_chain(self, &mut links);
        assert(links_view(links@) =~= erased_chain(*self));
        let texts = link_texts(&links);
        let has_info = match &self.inner {
            Inner::Boxed(b) => {
                let has_state = match &b.state {
                    Store::Empty => false,
                    _ => true,
                };
                has_state || b.context.is_some()
            },
            _ => true,
        };
        format_chain(has_info, &texts)
    }
}

} // verus!
