//! The discrete user actions and their effect on the game record. Every
//! action is a total, atomic transformation: it either applies its fixed
//! deltas through the gated vitals modifiers or, for the conditional
//! actions, leaves the record untouched.

use vstd::prelude::*;
use crate::state::{State, StateView};

verus! {

/// A discrete action the user can take on the pet.
#[derive(Debug, Clone, Copy, PartialEq, Eq)]
pub enum Action {
    Meal,
    Snack,
    Play,
    Scold,
    Toilet,
    Clean,
}

/// The record after a meal: hunger down by 40 (unless the pet is cranky
/// and refuses to eat) and comfort down by 20.
pub open spec fn after_meal(s: StateView) -> StateView {
    StateView {
        vitals: s.vitals.with_hunger_modified(-40i8).with_comfort_modified(-20i8),
        ..s
    }
}

/// The record after a snack: hunger down by 20 (unless the pet is cranky
/// and refuses to eat) and comfort down by 10.
pub open spec fn after_snack(s: StateView) -> StateView {
    StateView {
        vitals: s.vitals.with_hunger_modified(-20i8).with_comfort_modified(-10i8),
        ..s
    }
}

/// The record after playing: happiness up by 40.
pub open spec fn after_play(s: StateView) -> StateView {
    StateView { vitals: s.vitals.with_happiness_modified(40i8), ..s }
}

/// The record after a scolding: happiness down by 10.
pub open spec fn after_scold(s: StateView) -> StateView {
    StateView { vitals: s.vitals.with_happiness_modified(-10i8), ..s }
}

/// The record after a toilet visit: if the pet needs the toilet, comfort
/// rises by a full saturating increase; otherwise nothing changes.
pub open spec fn after_toilet(s: StateView) -> StateView {
    if s.vitals.needs_toilet() {
        StateView { vitals: s.vitals.with_comfort_modified(i8::MAX), ..s }
    } else {
        s
    }
}

/// The record after cleaning: if a mess is on the floor, it is cleared
/// and happiness rises by 20; otherwise nothing changes.
pub open spec fn after_clean(s: StateView) -> StateView {
    if s.mess {
        StateView { mess: false, vitals: s.vitals.with_happiness_modified(20i8), ..s }
    } else {
        s
    }
}

/// The record after applying one action.
pub open spec fn after_action(action: Action, s: StateView) -> StateView {
    match action {
        Action::Meal => after_meal(s),
        Action::Snack => after_snack(s),
        Action::Play => after_play(s),
        Action::Scold => after_scold(s),
        Action::Toilet => after_toilet(s),
        Action::Clean => after_clean(s),
    }
}

/// Applies one user action to the record, atomically and synchronously.
/// Total: no action ever fails.
pub fn perform_action(action: Action, state: &mut State)
    ensures
        final(state)@ == after_action(action, old(state)@),
{
    match action {
        Action::Meal => feed(Action::Meal, state),
        Action::Snack => feed(Action::Snack, state),
        Action::Play => play(state),
        Action::Clean => clean(state),
        Action::Toilet => toilet(state),
        Action::Scold => scold(state),
    }
}

/// Feeds the pet a meal or a snack; any other action leaves the record
/// unchanged.
fn feed(food_type: Action, state: &mut State)
    ensures
        final(state)@ == (match food_type {
            Action::Meal => after_meal(old(state)@),
            Action::Snack => after_snack(old(state)@),
            _ => old(state)@,
        }),
{
    if let Action::Meal = food_type {
        state.vitals.modify_hunger(-40);
        state.vitals.modify_comfort(-20)
    }

    if let Action::Snack = food_type {
        state.vitals.modify_hunger(-20);
        state.vitals.modify_comfort(-10);
    }
}

fn play(state: &mut State)
    ensures
        final(state)@ == after_play(old(state)@),
{
    state.vitals.modify_happiness(40);
}

fn toilet(state: &mut State)
    ensures
        final(state)@ == after_toilet(old(state)@),
{
    if state.vitals.needs_toilet() {
        state.vitals.modify_comfort(i8::MAX);
    }
}

fn scold(state: &mut State)
    ensures
        final(state)@ == after_scold(old(state)@),
{
    state.vitals.modify_happiness(-10);
}

fn clean(state: &mut State)
    ensures
        final(state)@ == after_clean(old(state)@),
{
    if state.mess {
        state.vitals.modify_happiness(20);
        state.mess = false;
    }
}

/// Toilet idempotence: a toilet visit while the pet does not need the
/// toilet leaves the record — vitals included — exactly as it is.
pub proof fn lemma_toilet_noop(s: StateView)
    requires
        !s.vitals.needs_toilet(),
    ensures
        after_toilet(s) == s,
{
}

/// Clean idempotence: cleaning while no mess is on the floor leaves the
/// record exactly as it is.
pub proof fn lemma_clean_noop(s: StateView)
    requires
        !s.mess,
    ensures
        after_clean(s) == s,
{
}

} // verus!
