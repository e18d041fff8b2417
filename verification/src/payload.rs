//! Payloads: a text shown after the context of an error, produced when the error is made.
use vstd::prelude::*;

verus! {

/// A zero-sized payload placeholder: it shows nothing.
pub struct Empty {
    _private: (),
}

impl Empty {
    /// Creates the placeholder.
    pub(crate) fn new() -> (r: Empty) {
        Empty { _private: () }
    }

    /// What the placeholder shows: nothing.
    pub fn to_string(&self) -> (r: String)
        ensures
            r@ == Seq::<char>::empty(),
    {
        String::new()
    }
}

/// Something that produces a payload, given as the text it shows.
pub trait PayloadFn: Sized {
    /// The payload can be produced.
    spec fn ready(&self) -> bool;

    /// `text` is a payload this may produce.
    spec fn produces(&self, text: Seq<char>) -> bool;

    /// Produces the payload.
    fn call(self) -> (r: String)
        requires
            self.ready(),
        ensures
            self.produces(r@),
    ;
}

/// A closure that makes the payload when it is called.
impl<F: FnOnce() -> String> PayloadFn for F {
    open spec fn ready(&self) -> bool {
        self.requires(())
    }

    open spec fn produces(&self, text: Seq<char>) -> bool {
        exists|s: String| self.ensures((), s) && s@ == text
    }

    fn call(self) -> (r: String) {
        let s = self();
        assert(self.ensures((), s) && s@ == s@);
        s
    }
}

/// A payload given as it is.
pub struct Immediate(pub String);

impl PayloadFn for Immediate {
    open spec fn ready(&self) -> bool {
        true
    }

    open spec fn produces(&self, text: Seq<char>) -> bool {
        text == self.0@
    }

    fn call(self) -> (r: String) {
        self.0
    }
}

} // verus!
