//! Rendering of error messages and error chains.
use vstd::prelude::*;

use crate::context::ContextValue;
use crate::raw::state::Store;
use crate::raw::{
    ctx_text, erased_chain, opt_str, erased_display, head_text, node_chain, node_display, DynBody,
    ErasedRawError, Inner, RawError, SourceNode,
};
use crate::rtti::ERRATIC_TAG;
use crate::state::State;

verus! {

/// One error of an error chain: its type tag and its message.
pub struct ChainLink {
    pub type_tag: u64,
    pub message: String,
}

impl ChainLink {
    pub open spec fn view_pair(&self) -> (u64, Seq<char>) {
        (self.type_tag, self.message@)
    }

    /// The message of the error, as its `Display` prints it.
    pub fn to_string(&self) -> (r: String)
        ensures
            r@ == self.message@,
    {
        self.message.clone()
    }
}

/// The abstract chain that a sequence of links holds.
pub open spec fn links_view(links: Seq<ChainLink>) -> Seq<(u64, Seq<char>)> {
    links.map_values(|l: ChainLink| l.view_pair())
}

/// The messages of a chain.
pub open spec fn chain_texts(chain: Seq<(u64, Seq<char>)>) -> Seq<Seq<char>> {
    chain.map_values(|p: (u64, Seq<char>)| p.1)
}

/// The prefix put before each source in a chain.
pub open spec fn source_prefix() -> Seq<char> {
    seq!['\n', ' ', ' ', '-', '>', ' ']
}

/// A message as a further element of a chain.
pub open spec fn arrow(t: Seq<char>) -> Seq<char> {
    source_prefix() + t
}

/// Renders the further elements of a chain, each after the prefix, leaving out an element whose
/// rendering equals the one written last.
pub open spec fn dedup_render(last: Seq<char>, items: Seq<Seq<char>>) -> Seq<char>
    decreases items.len(),
{
    if items.len() == 0 {
        Seq::empty()
    } else {
        let w = arrow(items[0]);
        if w == last {
            dedup_render(last, items.drop_first())
        } else {
            w + dedup_render(w, items.drop_first())
        }
    }
}

/// Renders a chain of messages. When the error has a message of its own (`has_head`), the
/// first message is its own and repeats of the sources are checked from the second on;
/// otherwise the first message is its source's, which later sources must not repeat either.
pub open spec fn chain_render(has_head: bool, texts: Seq<Seq<char>>) -> Seq<char> {
    if texts.len() == 0 {
        Seq::empty()
    } else if has_head {
        texts[0] + dedup_render(Seq::empty(), texts.drop_first())
    } else {
        texts[0] + dedup_render(arrow(texts[0]), texts.drop_first())
    }
}

/// Builds the message of an error from its state and context: `<state>": "<context>`,
/// `<context>` or `<state>`.
pub fn format_state_context(state: Option<String>, context: Option<String>) -> (r: Option<String>)
    ensures
        r matches Some(t) ==> head_text(
            match state {
                Some(s) => Some(s@),
                None => None,
            },
            match context {
                Some(c) => Some(c@),
                None => None,
            },
        ) == Some(t@),
        r is None ==> head_text(
            match state {
                Some(s) => Some(s@),
                None => None,
            },
            match context {
                Some(c) => Some(c@),
                None => None,
            },
        ) is None,
{
    match (state, context) {
        (None, None) => None,
        (None, Some(c)) => Some(c),
        (Some(s), None) => Some(s),
        (Some(s), Some(c)) => {
            let mut t = s;
            proof {
                reveal_strlit(": ");
            }
            t.append(": ");
            t.append(c.as_str());
            Some(t)
        },
    }
}

/// The context followed by the payload, whichever of them are there.
pub open spec fn context_payload(context: Option<Seq<char>>, payload: Option<Seq<char>>) -> Option<Seq<char>> {
    match (context, payload) {
        (None, None) => None,
        (None, Some(p)) => Some(p),
        (Some(c), None) => Some(c),
        (Some(c), Some(p)) => Some(c + p),
    }
}

/// Builds the message of an error from its state, context and payload: the state, `": "`, and
/// the context followed by the payload, leaving out what is not there.
pub fn format_state_context_payload(state: Option<String>, context: Option<String>, payload: Option<String>) -> (r: Option<String>)
    ensures
        opt_str(r) == head_text(opt_str(state), context_payload(opt_str(context), opt_str(payload))),
{
    let joined = match (context, payload) {
        (None, None) => None,
        (None, Some(p)) => Some(p),
        (Some(c), None) => Some(c),
        (Some(c), Some(p)) => {
            let mut t = c;
            t.append(p.as_str());
            Some(t)
        },
    };
    format_state_context(state, joined)
}

fn context_text(c: &Option<ContextValue>) -> (r: Option<String>)
    ensures
        match r {
            Some(t) => c matches Some(v) && v.text@ == t@,
            None => c is None,
        },
{
    match c {
        Some(v) => Some(v.text.clone()),
        None => None,
    }
}

fn body_display<S: State>(b: &DynBody<S>) -> (r: String)
    ensures
        r@ == match head_text(b.state.text_spec(), ctx_text(b.ctx_spec())) {
            Some(h) => h,
            None => match b.source {
                Some(n) => node_display(n),
                None => Seq::empty(),
            },
        },
    decreases b, 0nat,
{
    match format_state_context(b.state.format_debug(), context_text(&b.context)) {
        Some(h) => h,
        None => match &b.source {
            Some(n) => format_node(n),
            None => String::new(),
        },
    }
}

/// The message of a source error.
pub fn format_node(n: &SourceNode) -> (r: String)
    ensures
        r@ == node_display(*n),
    decreases n, 2nat,
{
    match n {
        SourceNode::Foreign(f) => f.message.clone(),
        SourceNode::Erratic(e) => format_erased(e),
    }
}

/// The message of an erased error.
pub fn format_erased(e: &ErasedRawError) -> (r: String)
    ensures
        r@ == erased_display(*e),
    decreases e, 1nat,
{
    match &e.inner {
        Inner::Const(c) => String::from_str(c.context),
        Inner::Inline(x) => x.debug_text(),
        Inner::Boxed(b) => body_display(b),
    }
}

/// The message of an error (its `Display` without the alternate flag).
pub fn format_display<S: State>(err: &RawError<S>) -> (r: String)
    ensures
        r@ == err.display_spec(),
{
    match err {
        RawError::Const(c) => String::from_str(c.context),
        RawError::Inline(x) => x.borrow_value().debug_text(),
        RawError::Boxed(b) => body_display(b),
    }
}

/// Appends the chain starting at a source error.
pub fn push_node_chain(n: &SourceNode, out: &mut Vec<ChainLink>)
    ensures
        links_view(final(out)@) == links_view(old(out)@) + node_chain(*n),
    decreases n, 1nat,
{
    match n {
        SourceNode::Foreign(f) => {
            out.push(ChainLink { type_tag: f.type_tag, message: f.message.clone() });
            let ghost mid = out@;
            match &f.source {
                Some(b) => push_node_chain(b, out),
                None => {},
            }
            proof {
                assert(links_view(mid) =~= links_view(old(out)@) + seq![(f.type_tag, f.message@)]);
                assert(links_view(final(out)@) =~= links_view(old(out)@) + node_chain(*n));
            }
        },
        SourceNode::Erratic(e) => push_erased_chain(e, out),
    }
}

/// Appends the chain of an erased error.
pub fn push_erased_chain(e: &ErasedRawError, out: &mut Vec<ChainLink>)
    ensures
        links_view(final(out)@) == links_view(old(out)@) + erased_chain(*e),
    decreases e, 0nat,
{
    match &e.inner {
        Inner::Const(c) => {
            out.push(ChainLink { type_tag: ERRATIC_TAG, message: String::from_str(c.context) });
            proof {
                assert(links_view(final(out)@) =~= links_view(old(out)@) + erased_chain(*e));
            }
        },
        Inner::Inline(x) => {
            out.push(ChainLink { type_tag: ERRATIC_TAG, message: x.debug_text() });
            proof {
                assert(links_view(final(out)@) =~= links_view(old(out)@) + erased_chain(*e));
            }
        },
        Inner::Boxed(b) => {
            if !b.is_source_only() {
                let text = body_display(b);
                out.push(ChainLink { type_tag: ERRATIC_TAG, message: text });
            }
            let ghost mid = out@;
            match &b.source {
                Some(n) => push_node_chain(n, out),
                None => {},
            }
            proof {
                assert(links_view(mid) =~= links_view(old(out)@) + (if b.is_source_only_spec() {
                    Seq::empty()
                } else {
                    seq![(ERRATIC_TAG, erased_display(*e))]
                }));
                assert(links_view(final(out)@) =~= links_view(old(out)@) + erased_chain(*e));
            }
        },
    }
}

/// The error chain of an error.
pub fn collect_chain<S: State>(err: &RawError<S>) -> (r: Vec<ChainLink>)
    ensures
        links_view(r@) == err.chain_spec(),
{
    let mut out: Vec<ChainLink> = Vec::new();
    if !err.is_source_only() {
        out.push(ChainLink { type_tag: ERRATIC_TAG, message: format_display(err) });
    }
    let ghost mid = out@;
    match err {
        RawError::Boxed(b) => match &b.source {
            Some(n) => push_node_chain(n, &mut out),
            None => {},
        },
        _ => {},
    }
    proof {
        assert(links_view(mid) =~= (if err.is_source_only_spec() {
            Seq::empty()
        } else {
            seq![(ERRATIC_TAG, err.display_spec())]
        }));
        assert(links_view(out@) =~= err.chain_spec());
    }
    out
}

/// Returns `true` if `a` is a prefix of `b`.
pub fn is_prefix(a: &str, b: &str) -> (r: bool)
    ensures
        r == a@.is_prefix_of(b@),
{
    let la = a.unicode_len();
    let lb = b.unicode_len();
    if la > lb {
        return false;
    }
    let mut i: usize = 0;
    while i < la
        invariant
            la == a@.len(),
            lb == b@.len(),
            la <= lb,
            i <= la,
            forall|j: int| 0 <= j < i ==> a@[j] == b@[j],
        decreases la - i,
    {
        if a.get_char(i) != b.get_char(i) {
            assert(!(a@ =~= b@.subrange(0, a@.len() as int)) || a@[i as int] == b@[i as int]);
            return false;
        }
        i = i + 1;
    }
    assert(a@ =~= b@.subrange(0, a@.len() as int));
    true
}

/// Returns `true` if the two texts are equal.
pub fn same_text(a: &str, b: &str) -> (r: bool)
    ensures
        r == (a@ == b@),
{
    let same = a.unicode_len() == b.unicode_len() && is_prefix(a, b);
    proof {
        if a@.len() == b@.len() && a@.is_prefix_of(b@) {
            assert(a@ =~= b@);
        }
    }
    same
}

/// A message as a further element of a chain: the prefix, then the message.
pub fn arrow_string(t: &str) -> (r: String)
    ensures
        r@ == arrow(t@),
{
    proof {
        reveal_strlit("\n  -> ");
    }
    let mut r = String::from_str("\n  -> ");
    r.append(t);
    r
}

/// The messages that a sequence of strings holds.
pub open spec fn strings_view(v: Seq<String>) -> Seq<Seq<char>> {
    v.map_values(|s: String| s@)
}

/// Renders a chain of messages (see [`chain_render`]).
pub fn format_chain(has_head: bool, texts: &Vec<String>) -> (r: String)
    ensures
        r@ == chain_render(has_head, strings_view(texts@)),
{
    let ghost items = strings_view(texts@);
    if texts.len() == 0 {
        return String::new();
    }
    let mut out = texts[0].clone();
    let mut last = if has_head {
        String::new()
    } else {
        arrow_string(texts[0].as_str())
    };
    let mut i: usize = 1;
    proof {
        assert(items.drop_first() =~= items.subrange(1, items.len() as int));
    }
    while i < texts.len()
        invariant
            1 <= i <= texts.len(),
            items == strings_view(texts@),
            items.len() == texts.len(),
            chain_render(has_head, items) == out@ + dedup_render(
                last@,
                items.subrange(i as int, items.len() as int),
            ),
        decreases texts.len() - i,
    {
        let ghost rest = items.subrange(i as int, items.len() as int);
        let w = arrow_string(texts[i].as_str());
        proof {
            assert(rest[0] == texts@[i as int]@);
            assert(rest.drop_first() =~= items.subrange(i + 1, items.len() as int));
        }
        if !same_text(w.as_str(), last.as_str()) {
            out.append(w.as_str());
            last = w;
        }
        proof {
            assert(chain_render(has_head, items) == out@ + dedup_render(
                last@,
                items.subrange(i + 1, items.len() as int),
            ));
        }
        i = i + 1;
    }
    proof {
        assert(items.subrange(i as int, items.len() as int) =~= Seq::<Seq<char>>::empty());
        assert(out@ + Seq::<char>::empty() =~= out@);
    }
    out
}

/// The messages of a chain of links.
pub fn link_texts(links: &Vec<ChainLink>) -> (r: Vec<String>)
    ensures
        strings_view(r@) == chain_texts(links_view(links@)),
{
    let mut r: Vec<String> = Vec::new();
    let mut i: usize = 0;
    while i < links.len()
        invariant
            i <= links.len(),
            r.len() == i,
            forall|j: int| 0 <= j < i ==> #[trigger] r@[j]@ == links@[j].message@,
        decreases links.len() - i,
    {
        r.push(links[i].message.clone());
        i = i + 1;
    }
    proof {
        assert(strings_view(r@) =~= chain_texts(links_view(links@)));
    }
    r
}

/// The message of an error with its whole chain (its `Display` with the alternate flag).
pub fn format_display_alt<S: State>(err: &RawError<S>) -> (r: String)
    ensures
        r@ == chain_render(err.has_info_spec(), chain_texts(err.chain_spec())),
{
    let links = collect_chain(err);
    let texts = link_texts(&links);
    let has_info = has_info(err);
    format_chain(has_info, &texts)
}

/// The debug message of an error (its `Debug` without the alternate flag): the message with its
/// whole chain, then, unless `show_less`, the backtrace after a `Backtrace:` line.
pub fn format_debug<S: State>(err: &RawError<S>, show_less: bool, backtrace: Option<&str>) -> (r: String)
    ensures
        r@ == chain_render(err.has_info_spec(), chain_texts(err.chain_spec())) + match backtrace {
            Some(b) => if show_less {
                Seq::empty()
            } else {
                backtrace_suffix(b@)
            },
            None => Seq::empty(),
        },
{
    let mut r = format_display_alt(err);
    match backtrace {
        Some(b) => {
            if !show_less {
                let ghost before = r@;
                r.append("\nBacktrace:\n");
                r.append(b);
                assert(r@ =~= before + backtrace_suffix(b@));
            }
        },
        None => {},
    }
    r
}

/// The text after the chain in a debug message with a backtrace `b`.
pub open spec fn backtrace_suffix(b: Seq<char>) -> Seq<char> {
    "\nBacktrace:\n"@ + b
}

/// Returns `true` if the error shows a message of its own.
pub fn has_info<S: State>(err: &RawError<S>) -> (r: bool)
    ensures
        r == err.has_info_spec(),
{
    match err {
        RawError::Const(_) => true,
        RawError::Inline(_) => true,
        RawError::Boxed(b) => {
            let has_state = match &b.state {
                Store::Empty => false,
                _ => true,
            };
            has_state || b.context.is_some()
        },
    }
}

impl SourceNode {
    /// The message of the source error, as its `Display` prints it.
    pub fn to_string(&self) -> (r: String)
        ensures
            r@ == node_display(*self),
    {
        format_node(self)
    }
}

impl ErasedRawError {
    /// The message of the erased error, as its `Display` prints it.
    pub fn to_string(&self) -> (r: String)
        ensures
            r@ == erased_display(*self),
    {
        format_erased(self)
    }
}

impl<S: State> RawError<S> {
    /// The message of the error, as its `Display` prints it.
    pub fn to_string(&self) -> (r: String)
        ensures
            r@ == self.display_spec(),
    {
        format_display(self)
    }

    /// The message of the error followed by its chain, as its alternate `Display` prints it.
    pub fn to_string_alt(&self) -> (r: String)
        ensures
            r@ == chain_render(self.has_info_spec(), chain_texts(self.chain_spec())),
    {
        format_display_alt(self)
    }

    /// The error chain: the error itself if it shows a message of its own, then its sources.
    pub fn chain(&self) -> (r: Vec<ChainLink>)
        ensures
            links_view(r@) == self.chain_spec(),
    {
        collect_chain(self)
    }
}

} // verus!
