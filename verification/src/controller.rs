//! The orchestrator of the apply/validate/rollback loop.
//!
//! The host owns the text surface and the style engine; this controller owns
//! the decision logic. On every change notification the host first attempts
//! `try_activate` on the engine with the surface's full text, then hands the
//! text and the outcome to [`RollbackController::on_change`], and finally
//! performs the returned [`RollbackAction`] on the engine. The controller's
//! ghost state tracks the whole system as a
//! [`ModelState`](crate::model::ModelState), under the engine's contract:
//! a successful `try_activate(text)` leaves `text` active, and
//! `force_activate(text)` makes `text` active unconditionally.

use vstd::prelude::*;

use crate::model::handle_change;
use crate::model::initial_state;
use crate::model::lemma_handle_change_preserves_inv;
use crate::model::lemma_initial_state_inv;
use crate::model::state_inv;
use crate::model::ModelState;
use crate::store::LastGoodStore;

verus! {

/// What the host must do to the style engine after a change was handled.
pub enum RollbackAction {
    /// `try_activate` accepted the text: it is already active and is now the
    /// snapshot; there is nothing further to do.
    KeepActive,
    /// `try_activate` rejected the text: the host must `force_activate` the
    /// carried snapshot, restoring the last known-good appearance while the
    /// surface keeps showing the user's in-progress edit. A failure of that
    /// re-assertion would mean the engine no longer accepts a text it once
    /// validated — an unrecoverable condition the host must surface, not
    /// retry.
    ForceActivate(String),
}

/// The state machine coordinating change events with validation and rollback.
/// It exclusively owns the [`LastGoodStore`]; its view is the abstract
/// [`ModelState`] of the whole styling system.
pub struct RollbackController {
    store: LastGoodStore,
    model: Ghost<ModelState>,
}

impl View for RollbackController {
    type V = ModelState;

    closed spec fn view(&self) -> ModelState {
        self.model@
    }
}

impl RollbackController {
    #[verifier::type_invariant]
    spec fn wf(self) -> bool {
        &&& self.model@.last_good == self.store@
        &&& state_inv(self.model@)
    }

    /// A controller for a freshly started system: the snapshot is the empty
    /// stylesheet, matching an engine with nothing loaded and an empty
    /// surface.
    pub fn new() -> (c: Self)
        ensures
            c@ == initial_state(),
    {
        proof {
            lemma_initial_state_inv();
        }
        RollbackController { store: LastGoodStore::new(), model: Ghost(initial_state()) }
    }

    /// The current snapshot, as a copy.
    pub fn last_good(&self) -> (r: String)
        ensures
            r@ == self@.last_good,
    {
        proof {
            use_type_invariant(&*self);
        }
        self.store.get()
    }

    /// Handles one change notification. `text` is the full content of the
    /// text surface, and `activated` reports whether the engine's
    /// `try_activate(text)` succeeded. On success the text becomes the
    /// snapshot; on failure the snapshot is kept and returned for the host to
    /// re-assert. Activation failures are absorbed here — they are the normal
    /// mid-edit condition and are never surfaced as errors.
    pub fn on_change(&mut self, text: String, activated: bool) -> (action: RollbackAction)
        ensures
            final(self)@ == handle_change(old(self)@, text@, activated),
            activated ==> final(self)@.last_good == text@ && action == RollbackAction::KeepActive,
            !activated ==> final(self)@.last_good == old(self)@.last_good && (action matches
                RollbackAction::ForceActivate(snap) && snap@ == old(self)@.last_good),
    {
        proof {
            use_type_invariant(&*self);
            lemma_handle_change_preserves_inv(self.model@, text@, activated);
        }
        let ghost post = handle_change(self.model@, text@, activated);
        if activated {
            let mut store = LastGoodStore::new();
            store.set(text);
            *self = RollbackController { store, model: Ghost(post) };
            RollbackAction::KeepActive
        } else {
            let snapshot = self.store.get();
            proof {
                self.model@ = post;
            }
            RollbackAction::ForceActivate(snapshot)
        }
    }
}

} // verus!
