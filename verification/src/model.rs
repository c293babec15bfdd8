//! Abstract model of the styling system: the text surface the user edits, the
//! style engine's active stylesheet, the last-good snapshot, and the set of
//! texts that activation has accepted so far. The executable
//! [`RollbackController`](crate::controller::RollbackController) refines this
//! model, and the laws of the rollback loop are stated and proved here.

use vstd::prelude::*;

verus! {

/// One change notification as the model sees it: the text surface now reads
/// `text`, and `accepted` records whether the engine's `try_activate`
/// succeeded on that text.
pub struct ChangeEvent {
    pub text: Seq<char>,
    pub accepted: bool,
}

/// The whole styling system at specification level.
#[verifier::ext_equal]
pub struct ModelState {
    /// Full content of the text surface.
    pub surface: Seq<char>,
    /// The stylesheet the engine currently renders.
    pub active: Seq<char>,
    /// The last text known to have activated successfully.
    pub last_good: Seq<char>,
    /// Every text that `try_activate` has accepted, plus the initial empty
    /// stylesheet (valid by definition: no styling applied).
    pub validated: Set<Seq<char>>,
}

/// The state at startup: an empty surface, an engine rendering the empty
/// stylesheet, and the empty stylesheet as the snapshot.
pub open spec fn initial_state() -> ModelState {
    ModelState {
        surface: Seq::<char>::empty(),
        active: Seq::<char>::empty(),
        last_good: Seq::<char>::empty(),
        validated: Set::<Seq<char>>::empty().insert(Seq::<char>::empty()),
    }
}

/// How handling one change notification transforms the system. On success the
/// new text is active and becomes the snapshot; on failure the snapshot is
/// re-asserted on the engine and nothing else changes. Either way the surface
/// holds exactly what the user typed: the handler never writes into it.
pub open spec fn handle_change(s: ModelState, text: Seq<char>, accepted: bool) -> ModelState {
    if accepted {
        ModelState {
            surface: text,
            active: text,
            last_good: text,
            validated: s.validated.insert(text),
        }
    } else {
        ModelState {
            surface: text,
            active: s.last_good,
            last_good: s.last_good,
            validated: s.validated,
        }
    }
}

/// The system invariant: the engine renders exactly the snapshot, and the
/// snapshot — like the initial empty stylesheet — has passed validation.
pub open spec fn state_inv(s: ModelState) -> bool {
    &&& s.active == s.last_good
    &&& s.validated.contains(s.last_good)
    &&& s.validated.contains(Seq::<char>::empty())
}

/// Folds a whole sequence of change notifications over a state.
pub open spec fn run_changes(s: ModelState, events: Seq<ChangeEvent>) -> ModelState
    decreases events.len(),
{
    if events.len() == 0 {
        s
    } else {
        run_changes(handle_change(s, events[0].text, events[0].accepted), events.drop_first())
    }
}

/// The texts among `events` that the engine accepted.
pub open spec fn accepted_texts(events: Seq<ChangeEvent>) -> Set<Seq<char>> {
    Set::new(
        |t: Seq<char>|
            exists|i: int| 0 <= i < events.len() && events[i].accepted && events[i].text == t,
    )
}

/// The startup state satisfies the system invariant.
pub proof fn lemma_initial_state_inv()
    ensures
        state_inv(initial_state()),
{
}

/// Handling any single change notification preserves the system invariant.
pub proof fn lemma_handle_change_preserves_inv(s: ModelState, text: Seq<char>, accepted: bool)
    requires
        state_inv(s),
    ensures
        state_inv(handle_change(s, text, accepted)),
{
}

proof fn lemma_accepted_texts_drop_first(events: Seq<ChangeEvent>)
    requires
        events.len() > 0,
    ensures
        accepted_texts(events.drop_first()).subset_of(accepted_texts(events)),
        events[0].accepted ==> accepted_texts(events).contains(events[0].text),
{
    let rest = events.drop_first();
    assert forall|t: Seq<char>| accepted_texts(rest).contains(t) implies accepted_texts(
        events,
    ).contains(t) by {
        let i: int = choose|i: int|
            0 <= i < rest.len() && rest[i].accepted && rest[i].text == t;
        assert(rest[i] == events[i + 1]);
        assert(0 <= i + 1 < events.len() && events[i + 1].accepted && events[i + 1].text == t);
    }
    if events[0].accepted {
        assert(0 <= 0 < events.len() && events[0].accepted && events[0].text == events[0].text);
    }
}

proof fn lemma_run_changes_facts(s: ModelState, events: Seq<ChangeEvent>)
    requires
        state_inv(s),
    ensures
        state_inv(run_changes(s, events)),
        run_changes(s, events).validated.subset_of(s.validated.union(accepted_texts(events))),
    decreases events.len(),
{
    if events.len() == 0 {
        assert forall|t: Seq<char>| run_changes(s, events).validated.contains(t) implies s
            .validated.union(accepted_texts(events)).contains(t) by {}
    } else {
        let text = events[0].text;
        let acc = events[0].accepted;
        let s1 = handle_change(s, text, acc);
        lemma_handle_change_preserves_inv(s, text, acc);
        lemma_run_changes_facts(s1, events.drop_first());
        lemma_accepted_texts_drop_first(events);
        assert forall|t: Seq<char>| run_changes(s, events).validated.contains(t) implies s
            .validated.union(accepted_texts(events)).contains(t) by {
            assert(run_changes(s1, events.drop_first()).validated.contains(t));
            if s1.validated.contains(t) {
                if acc && t == text {
                    assert(accepted_texts(events).contains(text));
                } else {
                    assert(s.validated.contains(t));
                }
            } else {
                assert(accepted_texts(events.drop_first()).contains(t));
            }
        }
    }
}

/// **Invariant of the rollback loop.** After any sequence of change
/// notifications handled from startup, the stylesheet the engine renders is
/// one that an earlier `try_activate` accepted, or the initial empty
/// stylesheet. Because `events` is arbitrary, this holds after every call of
/// the loop: instantiate it with each prefix of the history.
pub proof fn lemma_active_always_validated(events: Seq<ChangeEvent>)
    ensures
        state_inv(run_changes(initial_state(), events)),
        accepted_texts(events).insert(Seq::<char>::empty()).contains(
            run_changes(initial_state(), events).active,
        ),
{
    lemma_run_changes_facts(initial_state(), events);
    let s = run_changes(initial_state(), events);
    assert(s.validated.contains(s.active));
    assert(initial_state().validated.union(accepted_texts(events)).contains(s.active));
    if initial_state().validated.contains(s.active) {
        assert(s.active == Seq::<char>::empty());
    }
}

/// **Idempotence.** Handling the same text with the same activation outcome
/// twice in a row leaves exactly the state that handling it once leaves. In
/// particular, a repeated identical valid edit changes nothing further, and
/// repeated failures re-assert the same snapshot without piling up state.
pub proof fn lemma_handle_change_idempotent(s: ModelState, text: Seq<char>, accepted: bool)
    ensures
        handle_change(handle_change(s, text, accepted), text, accepted) == handle_change(
            s,
            text,
            accepted,
        ),
{
    assert(handle_change(handle_change(s, text, accepted), text, accepted) =~~= handle_change(
        s,
        text,
        accepted,
    ));
}

/// **Rollback correctness.** A valid text `t1` followed by an invalid `t2`:
/// after handling `t2` the engine again renders exactly `t1` — not `t2` and
/// not any other value — while the surface still shows the user's `t2`.
pub proof fn lemma_rollback_restores_snapshot(s: ModelState, t1: Seq<char>, t2: Seq<char>)
    ensures
        ({
            let after = handle_change(handle_change(s, t1, true), t2, false);
            &&& after.active == t1
            &&& after.last_good == t1
            &&& after.surface == t2
        }),
{
}

/// **No feedback corruption.** Handling changes never writes into the text
/// surface: after any sequence of events the surface holds exactly what the
/// user last typed (or the starting content, when nothing was typed).
pub proof fn lemma_surface_never_rewritten(s: ModelState, events: Seq<ChangeEvent>)
    ensures
        run_changes(s, events).surface == (if events.len() == 0 {
            s.surface
        } else {
            events.last().text
        }),
    decreases events.len(),
{
    if events.len() > 0 {
        let s1 = handle_change(s, events[0].text, events[0].accepted);
        lemma_surface_never_rewritten(s1, events.drop_first());
        if events.len() > 1 {
            assert(events.drop_first().last() == events.last());
        }
    }
}

} // verus!
