//! The state slot of an allocated error body, and the discriminator that tracks it.
use vstd::prelude::*;
use vstd::layout::{align_of, size_of};

use crate::raw::align4::Metadata;
use crate::state::State;

verus! {

/// What a state slot holds.
#[derive(Debug, Clone, Copy, PartialEq, Eq, Structural)]
pub enum Metastate {
    /// No state.
    Empty,
    /// A state that can be read and taken out.
    Present,
    /// An erased state: it is still shown in messages, but can no longer be read.
    Frozen,
}

impl Metastate {
    /// The metadata that encodes this metastate in the tag bits of the body's pointer.
    pub fn to_metadata(self) -> (m: Metadata)
        ensures
            m.wf(),
            m.0 == (match self {
                Metastate::Empty => 0u8,
                Metastate::Present => 1u8,
                Metastate::Frozen => 2u8,
            }),
    {
        match self {
            Metastate::Empty => Metadata::_0(),
            Metastate::Present => Metadata::_1(),
            Metastate::Frozen => Metadata::_2(),
        }
    }

    /// Decodes a metastate from tag bits; the fourth value encodes none.
    pub fn from_metadata(m: Metadata) -> (r: Option<Metastate>)
        ensures
            m.0 == 0 ==> r == Some(Metastate::Empty),
            m.0 == 1 ==> r == Some(Metastate::Present),
            m.0 == 2 ==> r == Some(Metastate::Frozen),
            m.0 > 2 ==> r is None,
    {
        if m.0 == 0 {
            Some(Metastate::Empty)
        } else if m.0 == 1 {
            Some(Metastate::Present)
        } else if m.0 == 2 {
            Some(Metastate::Frozen)
        } else {
            None
        }
    }
}

/// Encoding a metastate and decoding it gives it back.
pub proof fn lemma_metastate_round_trip(s: Metastate, m: Metadata)
    requires
        m.0 == (match s {
            Metastate::Empty => 0u8,
            Metastate::Present => 1u8,
            Metastate::Frozen => 2u8,
        }),
    ensures
        m.wf(),
        m.0 == 0 ==> s == Metastate::Empty,
        m.0 == 1 ==> s == Metastate::Present,
        m.0 == 2 ==> s == Metastate::Frozen,
{
}

/// The kind of storage an allocated body provides for a state.
#[derive(Debug, Clone, Copy, PartialEq, Eq, Structural)]
pub enum StoreKind {
    /// The body was made without a state and can never hold one.
    Never,
    /// A word-sized store that can hold a state of any type that fits a word.
    Mini,
    /// A store for states of exactly one (larger) type, identified by its tag.
    Typed(u64),
}

/// States of type `S` fit a word-sized store.
pub open spec fn compact_spec<S>() -> bool {
    size_of::<S>() <= size_of::<usize>() && align_of::<S>() <= align_of::<usize>()
}

/// The kind of store a body made with a state of type `S` gets.
pub open spec fn store_kind_for<S: State>() -> StoreKind {
    if compact_spec::<S>() {
        StoreKind::Mini
    } else {
        StoreKind::Typed(S::tag_spec())
    }
}

/// A store of kind `kind` accepts a state of type `S`.
pub open spec fn store_accepts<S: State>(kind: StoreKind) -> bool {
    match kind {
        StoreKind::Never => false,
        StoreKind::Mini => compact_spec::<S>(),
        StoreKind::Typed(tag) => !compact_spec::<S>() && tag == S::tag_spec(),
    }
}

impl StoreKind {
    /// The kind of store for states of type `S`.
    pub fn for_state<S: State>() -> (k: StoreKind)
        ensures
            k == store_kind_for::<S>(),
    {
        if Ministate::<S>::is_state_compact() {
            StoreKind::Mini
        } else {
            StoreKind::Typed(S::type_tag())
        }
    }

    /// Returns `true` if a store of this kind accepts a state of type `S`.
    pub fn accepts<S: State>(self) -> (r: bool)
        ensures
            r == store_accepts::<S>(self),
    {
        match self {
            StoreKind::Never => false,
            StoreKind::Mini => Ministate::<S>::is_state_compact(),
            StoreKind::Typed(tag) => !Ministate::<S>::is_state_compact() && tag == S::type_tag(),
        }
    }
}

/// A store of the kind made for `S` accepts `S` again.
pub proof fn lemma_store_kind_accepts_own_type<S: State>()
    ensures
        store_accepts::<S>(store_kind_for::<S>()),
{
}

/// A word-sized store holding a state whose type fits a word.
pub struct Ministate<S> {
    value: S,
}

impl<S> Ministate<S> {
    pub closed spec fn value_spec(&self) -> S {
        self.value
    }

    /// Returns `true` if states of type `S` fit a word-sized store.
    pub fn is_state_compact() -> (r: bool)
        ensures
            r == compact_spec::<S>(),
    {
        core::mem::size_of::<S>() <= core::mem::size_of::<usize>() && core::mem::align_of::<S>()
            <= core::mem::align_of::<usize>()
    }

    /// Stores `state` if its type fits a word, or gives it back.
    pub fn try_new(state: S) -> (r: Result<Ministate<S>, S>)
        ensures
            r is Ok <==> compact_spec::<S>(),
            r matches Ok(m) ==> m.value_spec() == state,
            r matches Err(s) ==> s == state,
    {
        if Self::is_state_compact() {
            Ok(Ministate { value: state })
        } else {
            Err(state)
        }
    }

    /// Gives back the stored state.
    pub fn into_inner(self) -> (r: S)
        ensures
            r == self.value_spec(),
    {
        self.value
    }
}

/// The state slot of an allocated body.
pub enum Store<S> {
    Empty,
    Present(S),
    /// An erased state: only its debug text is kept.
    Frozen(String),
}

impl<S: State> Store<S> {
    /// The metastate of the slot.
    pub open spec fn meta_spec(&self) -> Metastate {
        match self {
            Store::Empty => Metastate::Empty,
            Store::Present(_) => Metastate::Present,
            Store::Frozen(_) => Metastate::Frozen,
        }
    }

    /// The state that can be read, if any.
    pub open spec fn present_spec(&self) -> Option<S> {
        match self {
            Store::Present(s) => Some(*s),
            _ => None,
        }
    }

    /// The debug text shown for the slot, if any (present or frozen).
    pub open spec fn text_spec(&self) -> Option<Seq<char>> {
        match self {
            Store::Empty => None,
            Store::Present(s) => Some(s.debug_view()),
            Store::Frozen(t) => Some(t@),
        }
    }

    /// Returns the metastate of the slot.
    pub fn metastate(&self) -> (m: Metastate)
        ensures
            m == self.meta_spec(),
    {
        match self {
            Store::Empty => Metastate::Empty,
            Store::Present(_) => Metastate::Present,
            Store::Frozen(_) => Metastate::Frozen,
        }
    }

    /// The debug text of a present or frozen state.
    pub fn format_debug(&self) -> (r: Option<String>)
        ensures
            match r {
                Some(t) => self.text_spec() == Some(t@),
                None => self.text_spec() is None,
            },
    {
        match self {
            Store::Empty => None,
            Store::Present(s) => Some(s.debug_text()),
            Store::Frozen(t) => Some(t.clone()),
        }
    }

    /// A reference to a present state.
    pub fn get(&self) -> (r: Option<&S>)
        ensures
            match r {
                Some(s) => self.present_spec() == Some(*s),
                None => self.present_spec() is None,
            },
    {
        match self {
            Store::Present(s) => Some(s),
            _ => None,
        }
    }

    /// Takes a present state out, leaving the slot empty; other slots are left as they are.
    pub fn take(&mut self) -> (r: Option<S>)
        ensures
            r == old(self).present_spec(),
            old(self).meta_spec() == Metastate::Present ==> final(self).meta_spec()
                == Metastate::Empty,
            old(self).meta_spec() != Metastate::Present ==> *final(self) == *old(self),
    {
        let mut slot = Store::Empty;
        core::mem::swap(self, &mut slot);
        match slot {
            Store::Present(s) => Some(s),
            other => {
                *self = other;
                None
            },
        }
    }

    /// Stores a state into an empty slot; fails, handing the state back, if the slot is not
    /// empty.
    pub fn try_set(&mut self, state: S) -> (r: Result<(), S>)
        ensures
            old(self).meta_spec() == Metastate::Empty <==> r is Ok,
            r is Ok ==> final(self).present_spec() == Some(state),
            r matches Err(s) ==> s == state && *final(self) == *old(self),
    {
        match self {
            Store::Empty => {
                *self = Store::Present(state);
                Ok(())
            },
            _ => Err(state),
        }
    }

    /// Freezes a present state: it is kept for messages but can no longer be read.
    ///
    /// Returns `false` when the slot is empty.
    pub fn freeze(&mut self) -> (r: bool)
        ensures
            r == (old(self).meta_spec() != Metastate::Empty),
            final(self).text_spec() == old(self).text_spec(),
            old(self).meta_spec() == Metastate::Empty ==> final(self).meta_spec()
                == Metastate::Empty,
            old(self).meta_spec() != Metastate::Empty ==> final(self).meta_spec()
                == Metastate::Frozen,
    {
        let mut slot = Store::Empty;
        core::mem::swap(self, &mut slot);
        match slot {
            Store::Empty => false,
            Store::Present(s) => {
                *self = Store::Frozen(s.debug_text());
                true
            },
            Store::Frozen(t) => {
                *self = Store::Frozen(t);
                true
            },
        }
    }

    /// Drops whatever the slot holds, leaving it empty.
    pub fn drop_in_place(&mut self)
        ensures
            final(self).meta_spec() == Metastate::Empty,
    {
        *self = Store::Empty;
    }

    /// Moves a slot without a present state to another state type.
    pub fn retype<S2: State>(self) -> (r: Store<S2>)
        requires
            self.meta_spec() != Metastate::Present,
        ensures
            r.meta_spec() == self.meta_spec(),
            r.text_spec() == self.text_spec(),
    {
        match self {
            Store::Frozen(t) => Store::Frozen(t),
            _ => Store::Empty,
        }
    }
}

} // verus!
