//! The single-slot holder for the last stylesheet text that activated
//! successfully.

use vstd::prelude::*;

verus! {

/// Holds the most recent stylesheet text that activated successfully. No
/// validation happens here: the
/// [`RollbackController`](crate::controller::RollbackController) alone decides
/// what is known-good, and it is the only reader and writer of this store.
pub struct LastGoodStore {
    text: String,
}

impl View for LastGoodStore {
    type V = Seq<char>;

    closed spec fn view(&self) -> Seq<char> {
        self.text@
    }
}

impl LastGoodStore {
    /// Starts out holding the empty stylesheet, which matches a style engine
    /// that has nothing loaded yet.
    pub fn new() -> (s: Self)
        ensures
            s@ == Seq::<char>::empty(),
    {
        LastGoodStore { text: String::new() }
    }

    /// The current snapshot, as a copy: the caller cannot corrupt the held
    /// text through the returned value.
    pub fn get(&self) -> (r: String)
        ensures
            r@ == self@,
    {
        self.text.clone()
    }

    /// Replaces the snapshot wholesale.
    pub fn set(&mut self, text: String)
        ensures
            final(self)@ == text@,
    {
        self.text = text;
    }
}

} // verus!
