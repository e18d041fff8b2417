//! Properties that relate several operations of the library.
use vstd::prelude::*;

use crate::builder::{built_from, built_with, erased_from, Builder, Cause};
use crate::pretty::erased_has_info;
use crate::context::{ContextFn, ContextValue, Value};
use crate::raw::state::{compact_spec, store_accepts};
use crate::raw::{
    boxed_form, boxes_faithfully, erased_chain, erased_display, lemma_replace_error_ref_same,
    new_contract, node_chain, node_display, node_error_ref, replace_error_ref, with_source,
    ErasedRawError, RawError, SourceNode,
};
use crate::backtrace::node_backtrace;
use crate::decimal::{decimal_digits, decimal_text};
use crate::pretty::{node_struct, reported_struct, struct_form};
use crate::raw::ForeignError;
use crate::render::{arrow, chain_render, chain_texts, dedup_render};
use crate::rtti::ERRATIC_TAG;
use crate::state::{restored, State, StateFn, Vacant};
use crate::{extracted, parts_of, Error};

verus! {

/// Taking the state out of an error and putting the same state back restores the error: the
/// same state, context, source, message and chain.
pub proof fn law_extract_then_restore<S: State>(e: RawError<S>, s: S, v: Vacant<S>, back: RawError<S>)
    requires
        extracted(e, s, v),
        restored(v, s, back),
    ensures
        back.present_spec() == e.present_spec(),
        back.state_text_spec() == e.state_text_spec(),
        back.ctx_spec() == e.ctx_spec(),
        back.src_spec() == e.src_spec(),
        back.src_tag_spec() == e.src_tag_spec(),
        back.own_backtrace_spec() == e.own_backtrace_spec(),
        back.backtrace_spec() == e.backtrace_spec(),
        back.display_spec() == e.display_spec(),
        back.chain_spec() == e.chain_spec(),
{
    assert(back.state_text_spec() == e.state_text_spec());
}

/// The store of a vacant body accepts a state of another type when both types fit a word, or
/// when both are the same type, so putting such a state back succeeds.
pub proof fn law_vacant_reuse<S: State, S2: State>(e: RawError<S>, s: S, v: Vacant<S>)
    requires
        extracted(e, s, v),
        v.has_body_spec(),
        (compact_spec::<S>() && compact_spec::<S2>()) || (S::tag_spec() == S2::tag_spec()
            && compact_spec::<S>() == compact_spec::<S2>()),
    ensures
        store_accepts::<S2>(v.store_kind_spec()),
{
    crate::state::lemma_store_reuse::<S, S2>(v.store_kind_spec());
}

/// Wrapping an erased error that holds no readable state, with nothing else, adds no layer:
/// the new error shows the same message and the same chain.
pub proof fn law_wrapping_adds_no_layer<S: State>(e: ErasedRawError, r: RawError<S>)
    requires
        e.is_stateless_spec(),
        new_contract(r, None, Some(SourceNode::Erratic(Box::new(e))), Value::Empty),
    ensures
        r.present_spec() is None,
        r.display_spec() == erased_display(e),
        r.chain_spec() == erased_chain(e),
{
    crate::raw::lemma_erased_views(e);
}

/// Building from a stateless error of this library, with no state and no context, gives an
/// error with the same message and chain: the builder adds no layer.
pub proof fn law_stateless_builder_adds_no_layer<S: State, X: StateFn<S>, F: ContextFn>(
    b: Builder<S, X, F>,
    e: Error<S>,
)
    requires
        b.err_spec() matches Some(Cause::Stateless(_)),
        forall|s: Option<S>| #[trigger] b.may_state(s) ==> s is None,
        forall|v: Value| #[trigger] b.context_spec().produces(v) ==> v is Empty,
        built_from(b, e),
    ensures
        e.raw_spec().display_spec() == b.err_spec()->Some_0->Stateless_0.raw_spec().display_spec(),
        e.raw_spec().chain_spec() == b.err_spec()->Some_0->Stateless_0.raw_spec().chain_spec(),
{
    let (s, v) = choose|s: Option<S>, v: Value|
        #![trigger b.may_state(s), b.context_spec().produces(v)]
        b.may_state(s) && b.context_spec().produces(v) && built_with(b.err_spec(), s, v, e);
    assert(s is None && v is Empty);
}

/// What an error is built from comes back out of it: the state it produced, the context it
/// produced when asked for by its type, and a foreign source when asked for by its type.
pub proof fn law_build_then_parts<S: State, X: StateFn<S>, F: ContextFn>(
    b: Builder<S, X, F>,
    e: Error<S>,
    ctx_tag: u64,
    src_tag: u64,
    r: (Option<S>, Option<ContextValue>, Option<SourceNode>),
)
    requires
        b.err_spec() is None || b.err_spec() matches Some(Cause::Foreign(_)),
        built_from(b, e),
        parts_of(e.raw_spec(), ctx_tag, src_tag, r),
    ensures
        exists|s: Option<S>, v: Value|
            #![trigger b.may_state(s), b.context_spec().produces(v)]
            {
                &&& b.may_state(s)
                &&& b.context_spec().produces(v)
                &&& r.0 == s
                &&& (v.pair() matches Some(p) && p.0 == ctx_tag) ==> (r.1 matches Some(c) && Some(
                    c.view_pair(),
                ) == v.pair())
                &&& !(v.pair() matches Some(p) && p.0 == ctx_tag) ==> r.1 is None
            },
        b.err_spec() matches Some(Cause::Foreign(f)) ==> (r.2 == if f.type_tag == src_tag {
            Some(SourceNode::Foreign(f))
        } else {
            None
        }),
        b.err_spec() is None ==> r.2 is None,
{
    let (s, v) = choose|s: Option<S>, v: Value|
        #![trigger b.may_state(s), b.context_spec().produces(v)]
        b.may_state(s) && b.context_spec().produces(v) && built_with(b.err_spec(), s, v, e);
    assert(r.0 == s);
}

/// Writing back, unchanged, the source error that an error reports (the one its mutable
/// downcast gives) leaves the error as it was.
pub proof fn law_source_write_back<S: State>(e: RawError<S>)
    requires
        e.src_spec() is Some,
    ensures
        with_source(e, replace_error_ref(e.src_spec()->Some_0, node_error_ref(e.src_spec()->Some_0)))
            == e,
{
    lemma_replace_error_ref_same(e.src_spec()->Some_0);
}

/// Boxing a source keeps the messages of its chain, whenever every error of this library that
/// boxing passes through wraps a source (see [`boxes_faithfully`]).
pub proof fn law_boxing_keeps_chain_messages(n: SourceNode, r: SourceNode)
    requires
        boxed_form(n, r),
        boxes_faithfully(n),
    ensures
        chain_texts(node_chain(r)) == chain_texts(node_chain(n)),
        node_display(r) == node_display(n),
    decreases n,
{
    match n {
        SourceNode::Foreign(_) => {},
        SourceNode::Erratic(e) => match e.inner {
            crate::raw::Inner::Const(c) => {
                let f = r->Foreign_0;
                assert(node_chain(r) =~= seq![(f.type_tag, f.message@)]);
                assert(node_chain(n) == erased_chain(*e));
                assert(erased_chain(*e) =~= seq![(crate::rtti::ERRATIC_TAG, c.context@)]);
                assert(chain_texts(node_chain(r)) =~= chain_texts(node_chain(n)));
            },
            crate::raw::Inner::Inline(_) => {},
            crate::raw::Inner::Boxed(b) => {
                if b.state.meta_spec() == crate::raw::state::Metastate::Empty && b.context is None {
                    let m = b.source->Some_0;
                    law_boxing_keeps_chain_messages(m, r);
                    crate::raw::lemma_erased_views(*e);
                }
            },
        },
    }
}

/// Erasing the state type of an error keeps how it renders: the same message, and the same
/// message with its chain (the alternate form).
pub proof fn law_erase_keeps_rendering<S: State>(e: Error<S>, x: ErasedRawError)
    requires
        erased_from(x, e),
    ensures
        erased_display(x) == e.raw_spec().display_spec(),
        chain_render(erased_has_info(x), chain_texts(erased_chain(x))) == chain_render(
            e.raw_spec().has_info_spec(),
            chain_texts(e.raw_spec().chain_spec()),
        ),
{
    assert(erased_has_info(x) == (x.state_text_spec() is Some || x.ctx_spec() is Some));
}

/// The messages a source error contributes to a chain: none without a source.
pub open spec fn source_chain<S: State>(e: RawError<S>) -> Seq<(u64, Seq<char>)> {
    match e.src_spec() {
        Some(n) => node_chain(n),
        None => Seq::empty(),
    }
}

/// When a new state cannot replace the old one in place, the new error still shows the old
/// error's context and every message of its source chain: its chain is its own message, then
/// the old context, then the old sources.
pub proof fn law_derived_keeps_context_and_sources<S: State, S2: State>(e: RawError<S>, r: RawError<S2>)
    requires
        crate::derived_around(e, r),
        r.state_text_spec() is Some,
    ensures
        r.chain_spec() == seq![(ERRATIC_TAG, r.display_spec())] + (match e.ctx_spec() {
            Some(c) => seq![(ERRATIC_TAG, c.1)],
            None => Seq::empty(),
        }) + source_chain(e),
{
    if e.ctx_spec() is None && e.src_spec() is None {
        assert(r.chain_spec() =~= seq![(ERRATIC_TAG, r.display_spec())]);
    } else {
        let x = r.src_spec()->Some_0->Erratic_0;
        let tail = match e.ctx_spec() {
            Some(c) => seq![(ERRATIC_TAG, c.1)],
            None => Seq::<(u64, Seq<char>)>::empty(),
        } + source_chain(e);
        match x.inner {
            crate::raw::Inner::Const(c) => {
                assert(erased_chain(*x) =~= seq![(ERRATIC_TAG, c.context@)]);
                assert(erased_chain(*x) =~= tail);
            },
            crate::raw::Inner::Inline(_) => {},
            crate::raw::Inner::Boxed(b) => {
                if e.ctx_spec() is Some {
                    assert(!b.is_source_only_spec());
                    assert(erased_display(*x) == e.ctx_spec()->Some_0.1);
                    assert(erased_chain(*x) =~= tail);
                } else {
                    assert(b.is_source_only_spec());
                    assert(erased_chain(*x) =~= tail);
                }
            },
        }
        assert(node_chain(SourceNode::Erratic(x)) == erased_chain(*x));
        assert(r.chain_spec() =~= seq![(ERRATIC_TAG, r.display_spec())] + (match e.ctx_spec() {
            Some(c) => seq![(ERRATIC_TAG, c.1)],
            None => Seq::<(u64, Seq<char>)>::empty(),
        }) + source_chain(e));
    }
}

/// A foreign error that has a source contributes its own message to a chain, followed by the
/// whole chain of its source: the chain is one longer than the source's, and ends where the
/// source's chain ends.
pub proof fn law_foreign_chain_follows_its_source(f: ForeignError, m: SourceNode)
    requires
        f.source == Some(Box::new(m)),
    ensures
        node_chain(SourceNode::Foreign(f)) == seq![(f.type_tag, f.message@)] + node_chain(m),
        node_chain(SourceNode::Foreign(f)).len() == 1 + node_chain(m).len(),
        node_chain(m).len() > 0 ==> node_chain(SourceNode::Foreign(f)).last() == node_chain(m).last(),
{
    assert((seq![(f.type_tag, f.message@)] + node_chain(m)).len() == 1 + node_chain(m).len());
}

/// The chain of a foreign error is never empty: it starts with the error itself.
pub proof fn law_foreign_chain_starts_with_itself(f: ForeignError)
    ensures
        node_chain(SourceNode::Foreign(f)).len() >= 1,
        node_chain(SourceNode::Foreign(f))[0] == (f.type_tag, f.message@),
{
}

/// An error with a context and no state, over a foreign source `f` that has a source `m`, has
/// the chain: its context, then `f`, then the whole chain of `m`.
pub proof fn law_chain_reaches_the_source_of_a_foreign_source<S: State>(e: RawError<S>, f: ForeignError, m: SourceNode)
    requires
        e.state_text_spec() is None,
        e.ctx_spec() is Some,
        e.src_spec() == Some(SourceNode::Foreign(f)),
        f.source == Some(Box::new(m)),
    ensures
        e.chain_spec() == seq![(ERRATIC_TAG, e.ctx_spec()->Some_0.1), (f.type_tag, f.message@)] + node_chain(m),
        e.chain_spec().len() == 2 + node_chain(m).len(),
{
    law_foreign_chain_follows_its_source(f, m);
    assert(e.display_spec() == e.ctx_spec()->Some_0.1);
    assert(e.chain_spec() =~= seq![(ERRATIC_TAG, e.ctx_spec()->Some_0.1), (f.type_tag, f.message@)] + node_chain(m));
}

/// Every source message written after another: `"\n  -> "` before each.
pub open spec fn all_arrows(items: Seq<Seq<char>>) -> Seq<char>
    decreases items.len(),
{
    if items.len() == 0 {
        Seq::empty()
    } else {
        arrow(items[0]) + all_arrows(items.drop_first())
    }
}

/// No message equals the one just before it.
pub open spec fn neighbours_differ(items: Seq<Seq<char>>) -> bool {
    forall|i: int| 0 <= i < items.len() - 1 ==> #[trigger] items[i] != items[i + 1]
}

/// Two messages with the same arrowed text are the same message.
proof fn lemma_arrow_injective(a: Seq<char>, b: Seq<char>)
    requires
        arrow(a) == arrow(b),
    ensures
        a == b,
{
    assert(a =~= arrow(a).subrange(6, arrow(a).len() as int));
    assert(b =~= arrow(b).subrange(6, arrow(b).len() as int));
}

/// Rendering messages none of which repeats the one before (the first not repeating `last`)
/// writes every one of them.
proof fn lemma_dedup_keeps_distinct(last: Seq<char>, items: Seq<Seq<char>>)
    requires
        neighbours_differ(items),
        items.len() > 0 ==> arrow(items[0]) != last,
    ensures
        dedup_render(last, items) == all_arrows(items),
    decreases items.len(),
{
    if items.len() > 0 {
        let rest = items.drop_first();
        assert forall|i: int| 0 <= i < rest.len() - 1 implies #[trigger] rest[i] != rest[i + 1] by {
            assert(rest[i] == items[i + 1] && rest[i + 1] == items[i + 2]);
        }
        if rest.len() > 0 {
            assert(rest[0] == items[1]);
            assert(items[0] != items[1]);
            if arrow(rest[0]) == arrow(items[0]) {
                lemma_arrow_injective(rest[0], items[0]);
            }
        }
        lemma_dedup_keeps_distinct(arrow(items[0]), rest);
    }
}

/// Rendering a run of one same message after that message was written adds nothing.
proof fn lemma_dedup_drops_a_run(m: Seq<char>, items: Seq<Seq<char>>)
    requires
        forall|i: int| 0 <= i < items.len() ==> #[trigger] items[i] == m,
    ensures
        dedup_render(arrow(m), items) == Seq::<char>::empty(),
    decreases items.len(),
{
    if items.len() > 0 {
        let rest = items.drop_first();
        assert forall|i: int| 0 <= i < rest.len() implies #[trigger] rest[i] == m by {
            assert(rest[i] == items[i + 1]);
        }
        lemma_dedup_drops_a_run(m, rest);
    }
}

/// A repeated source message is written once: after the error's own message, a run of sources
/// that all have the same message renders as that message a single time.
pub proof fn law_chain_render_writes_a_repeated_source_once(head: Seq<char>, m: Seq<char>, count: nat)
    requires
        count >= 1,
    ensures
        chain_render(true, seq![head] + Seq::new(count, |i: int| m)) == head + arrow(m),
{
    let texts = seq![head] + Seq::new(count, |i: int| m);
    let items = texts.drop_first();
    assert(items =~= Seq::new(count, |i: int| m));
    let rest = items.drop_first();
    assert forall|i: int| 0 <= i < rest.len() implies #[trigger] rest[i] == m by {
        assert(rest[i] == items[i + 1]);
    }
    lemma_dedup_drops_a_run(m, rest);
    assert(arrow(items[0]) != Seq::<char>::empty()) by {
        assert(arrow(items[0]).len() > 0);
    }
    assert(dedup_render(Seq::empty(), items) == arrow(m) + dedup_render(arrow(m), rest));
    assert(arrow(m) + Seq::<char>::empty() =~= arrow(m));
}

/// A chain rendering leaves a source message out only when it repeats the one just before:
/// for an error with a message of its own, whose source messages never repeat their
/// neighbour, the rendering is its message followed by every source message after
/// `"\n  -> "`.
pub proof fn law_chain_render_writes_every_distinct_source(texts: Seq<Seq<char>>)
    requires
        texts.len() > 0,
        neighbours_differ(texts.drop_first()),
    ensures
        chain_render(true, texts) == texts[0] + all_arrows(texts.drop_first()),
{
    lemma_dedup_keeps_distinct(Seq::empty(), texts.drop_first());
}

/// For an error that shows its source's message as its own, the rendering is that message
/// followed by every later message, when no message repeats the one just before it.
pub proof fn law_chain_render_without_head_writes_every_distinct_source(texts: Seq<Seq<char>>)
    requires
        texts.len() > 0,
        neighbours_differ(texts),
    ensures
        chain_render(false, texts) == texts[0] + all_arrows(texts.drop_first()),
{
    let rest = texts.drop_first();
    assert forall|i: int| 0 <= i < rest.len() - 1 implies #[trigger] rest[i] != rest[i + 1] by {
        assert(rest[i] == texts[i + 1] && rest[i + 1] == texts[i + 2]);
    }
    if rest.len() > 0 {
        assert(rest[0] == texts[1]);
        assert(texts[0] != texts[1]);
        if arrow(rest[0]) == arrow(texts[0]) {
            lemma_arrow_injective(rest[0], texts[0]);
        }
    }
    lemma_dedup_keeps_distinct(arrow(texts[0]), rest);
}

/// The backtraces kept along a chain, in the order the chain is followed: a body's own, then
/// those along its source; a foreign error keeps none but passes on to its source.
pub open spec fn kept_backtraces(n: SourceNode) -> Seq<Seq<char>>
    decreases n,
{
    match n {
        SourceNode::Foreign(f) => match f.source {
            Some(m) => kept_backtraces(*m),
            None => Seq::empty(),
        },
        SourceNode::Erratic(e) => match e.inner {
            crate::raw::Inner::Boxed(b) => (match b.backtrace {
                Some(t) => seq![t@],
                None => Seq::empty(),
            }) + match b.source {
                Some(m) => kept_backtraces(m),
                None => Seq::empty(),
            },
            _ => Seq::empty(),
        },
    }
}

/// The backtrace found along a chain is the first one kept by any error reached by following
/// sources, and there is none only when no error of the chain keeps one.
pub proof fn law_backtrace_search_finds_the_first_kept(n: SourceNode)
    ensures
        node_backtrace(n) == (if kept_backtraces(n).len() > 0 {
            Some(kept_backtraces(n)[0])
        } else {
            None
        }),
    decreases n,
{
    match n {
        SourceNode::Foreign(f) => match f.source {
            Some(m) => law_backtrace_search_finds_the_first_kept(*m),
            None => {},
        },
        SourceNode::Erratic(e) => match e.inner {
            crate::raw::Inner::Boxed(b) => {
                match b.source {
                    Some(m) => law_backtrace_search_finds_the_first_kept(m),
                    None => {},
                }
                match b.backtrace {
                    Some(t) => {
                        assert(kept_backtraces(n)[0] == t@);
                    },
                    None => {
                        assert(kept_backtraces(n) =~= match b.source {
                            Some(m) => kept_backtraces(m),
                            None => Seq::<Seq<char>>::empty(),
                        });
                    },
                }
            },
            _ => {},
        },
    }
}

/// The backtrace of an error: its own body's, or else the first one kept along its source's
/// chain, however deep.
pub proof fn law_error_backtrace_is_the_first_kept<S: State>(e: RawError<S>)
    requires
        e.kind_spec() == 1,
    ensures
        e.backtrace_spec() == (match e.own_backtrace_spec() {
            Some(t) => Some(t),
            None => match e.src_spec() {
                Some(n) => if kept_backtraces(n).len() > 0 {
                    Some(kept_backtraces(n)[0])
                } else {
                    None
                },
                None => None,
            },
        }),
{
    match e.src_spec() {
        Some(n) => law_backtrace_search_finds_the_first_kept(n),
        None => {},
    }
}

/// In the struct form, a source error of this library that shows a message of its own (a
/// state text, present or frozen, or a context) is shown as itself, with that state and
/// context; only one that shows no message gives way to its own source.
pub proof fn law_struct_shows_a_source_with_a_message(n: SourceNode, show_less: bool)
    requires
        n matches SourceNode::Erratic(e) && e.inner matches crate::raw::Inner::Boxed(b),
    ensures
        ({
            let b = n->Erratic_0.inner->Boxed_0;
            &&& (b.state.text_spec() is Some || b.context is Some) ==> {
                &&& reported_struct(n, show_less) == node_struct(n, show_less)
                &&& reported_struct(n, show_less) == struct_form(
                    b.state.text_spec(),
                    crate::raw::ctx_text(b.ctx_spec()),
                    match b.source {
                        Some(m) => Some(reported_struct(m, show_less)),
                        None => None,
                    },
                    if show_less {
                        None
                    } else {
                        crate::pretty::body_backtrace(*b)
                    },
                )
            }
            &&& (b.state.text_spec() is None && b.context is None && b.source is Some) ==> reported_struct(
                n,
                show_less,
            ) == reported_struct(b.source->Some_0, show_less)
        }),
{
    let b = n->Erratic_0.inner->Boxed_0;
    if b.state.text_spec() is Some || b.context is Some {
        assert(b.has_info_spec());
        assert(!b.is_source_only_spec());
        assert(reported_struct(n, show_less) == node_struct(n, show_less));
    }
    if b.state.text_spec() is None && b.context is None && b.source is Some {
        assert(b.is_source_only_spec());
        assert(reported_struct(n, show_less) == reported_struct(b.source->Some_0, show_less));
    }
}

/// The value a decimal numeral reads back as.
pub open spec fn numeral_value(s: Seq<char>) -> int
    decreases s.len(),
{
    if s.len() == 0 {
        0
    } else {
        numeral_value(s.drop_last()) * 10 + (s.last() as int - '0' as int)
    }
}

/// A text made of decimal digits only.
pub open spec fn all_digits(s: Seq<char>) -> bool {
    forall|i: int| 0 <= i < s.len() ==> '0' <= #[trigger] s[i] <= '9'
}

/// The decimal text of a natural number is a numeral of its digits that reads back as the
/// number, without a leading zero (a single `0` for zero).
pub proof fn law_decimal_digits_read_back(n: nat)
    ensures
        decimal_digits(n).len() >= 1,
        all_digits(decimal_digits(n)),
        numeral_value(decimal_digits(n)) == n,
        n > 0 ==> decimal_digits(n)[0] != '0',
        n < 10 <==> decimal_digits(n).len() == 1,
    decreases n,
{
    if n < 10 {
        let s = decimal_digits(n);
        assert(s.drop_last() =~= Seq::<char>::empty());
        assert(numeral_value(Seq::<char>::empty()) == 0);
        assert(numeral_value(s.drop_last()) == 0);
        assert(s.last() as int - '0' as int == n);
    } else {
        let q = (n / 10) as nat;
        law_decimal_digits_read_back(q);
        let s = decimal_digits(n);
        let d = (n % 10) as int;
        assert(s.drop_last() =~= decimal_digits(q));
        assert(s.last() as int - '0' as int == d);
        assert(q * 10 + d == n) by (nonlinear_arith)
            requires
                q == n / 10,
                d == n % 10,
        ;
        assert(s[0] == decimal_digits(q)[0]);
        assert forall|i: int| 0 <= i < s.len() implies '0' <= #[trigger] s[i] <= '9' by {
            if i < s.len() - 1 {
                assert(s[i] == decimal_digits(q)[i]);
            }
        }
    }
}

/// The decimal text of an integer reads back as the integer: a minus sign before the digits of
/// its magnitude when it is negative, and the digits alone otherwise.
pub proof fn law_decimal_text_reads_back(n: int)
    ensures
        n >= 0 ==> numeral_value(decimal_text(n)) == n && all_digits(decimal_text(n)),
        n < 0 ==> decimal_text(n)[0] == '-' && numeral_value(decimal_text(n).drop_first()) == -n
            && all_digits(decimal_text(n).drop_first()),
{
    if n >= 0 {
        law_decimal_digits_read_back(n as nat);
    } else {
        law_decimal_digits_read_back((-n) as nat);
        assert(decimal_text(n).drop_first() =~= decimal_digits((-n) as nat));
    }
}

/// The debug text of an unsigned integer state is its decimal numeral.
pub proof fn law_unsigned_state_text_reads_back(n: u128)
    ensures
        numeral_value(n.debug_view()) == n,
        all_digits(n.debug_view()),
        n > 0 ==> n.debug_view()[0] != '0',
{
    law_decimal_text_reads_back(n as int);
    law_decimal_digits_read_back(n as nat);
}

} // verus!
