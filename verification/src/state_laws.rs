//! What holds of the loading gate over a whole run of ticks.

use vstd::prelude::*;
use crate::state::GameState;
use crate::state::gate_opens;
use crate::state::state_after;
use crate::state::hooks_for;
use crate::state::Hook;

verus! {

/// What one check of the loading gate sees.
pub struct GateCheck {
    pub assets_loaded: bool,
    pub framerate_stable: bool,
}

/// Both conditions of the loading gate hold in this one check.
pub open spec fn ready(check: GateCheck) -> bool {
    check.assets_loaded && check.framerate_stable
}

/// The request that a check of the loading gate files in `state`.
pub open spec fn gate_request(state: GameState, check: GateCheck) -> Option<GameState> {
    if gate_opens(state, check.assets_loaded, check.framerate_stable) {
        Some(GameState::Menu)
    } else {
        None
    }
}

/// The phase after the loading gate was checked in each of `checks` in turn, each
/// request being applied before the next check.
pub open spec fn after_checks(state: GameState, checks: Seq<GateCheck>) -> GameState
    decreases checks.len(),
{
    if checks.len() == 0 {
        state
    } else {
        let before = after_checks(state, checks.drop_last());
        state_after(before, gate_request(before, checks.last()))
    }
}

/// The loading gate opens in check `i` of a run that starts in the loading phase.
pub open spec fn opens_at(checks: Seq<GateCheck>, i: int) -> bool {
    gate_opens(
        after_checks(GameState::Loading, checks.take(i)),
        checks[i].assets_loaded,
        checks[i].framerate_stable,
    )
}

/// A game that starts loading is still loading while no check has found both
/// conditions to hold, and is in the menu from the first check that has.
pub proof fn lemma_loading_until_ready(checks: Seq<GateCheck>)
    ensures
        after_checks(GameState::Loading, checks) == if exists|i: int|
            0 <= i < checks.len() && ready(#[trigger] checks[i]) {
            GameState::Menu
        } else {
            GameState::Loading
        },
    decreases checks.len(),
{
    if checks.len() > 0 {
        let init = checks.drop_last();
        lemma_loading_until_ready(init);
        assert(forall|i: int| 0 <= i < init.len() ==> init[i] == checks[i]);
        if exists|i: int| 0 <= i < init.len() && ready(#[trigger] init[i]) {
            let i = choose|i: int| 0 <= i < init.len() && ready(#[trigger] init[i]);
            assert(ready(checks[i]));
        } else if ready(checks.last()) {
            assert(ready(checks[checks.len() - 1]));
        } else {
            assert forall|i: int| 0 <= i < checks.len() implies !ready(#[trigger] checks[i]) by {
                if i < init.len() {
                    assert(!ready(init[i]));
                }
            }
        }
    }
}

/// The loading gate opens in a check exactly when both conditions hold in it and in
/// no check before it.
pub proof fn lemma_gate_opens_at_first_ready(checks: Seq<GateCheck>, i: int)
    requires
        0 <= i < checks.len(),
    ensures
        opens_at(checks, i) <==> ready(checks[i]) && forall|j: int|
            0 <= j < i ==> !ready(#[trigger] checks[j]),
{
    let before = checks.take(i);
    lemma_loading_until_ready(before);
    assert(forall|j: int| 0 <= j < i ==> before[j] == checks[j]);
    if exists|j: int| 0 <= j < before.len() && ready(#[trigger] before[j]) {
        let j = choose|j: int| 0 <= j < before.len() && ready(#[trigger] before[j]);
        assert(ready(checks[j]));
    } else {
        assert forall|j: int| 0 <= j < i implies !ready(#[trigger] checks[j]) by {
            assert(!ready(before[j]));
        }
    }
}

/// The loading gate opens at most once in a run.
pub proof fn lemma_gate_opens_at_most_once(checks: Seq<GateCheck>, i: int, j: int)
    requires
        0 <= i < checks.len(),
        0 <= j < checks.len(),
        opens_at(checks, i),
        opens_at(checks, j),
    ensures
        i == j,
{
    lemma_gate_opens_at_first_ready(checks, i);
    lemma_gate_opens_at_first_ready(checks, j);
    if i < j {
        assert(!ready(checks[i]));
    }
    if j < i {
        assert(!ready(checks[j]));
    }
}

/// A change of phase is bracketed by its hooks: the old phase is left before
/// the new one is entered, and nothing runs where the phase stays.
pub proof fn lemma_exit_before_enter(state: GameState, next: Option<GameState>)
    ensures
        state_after(state, next) != state ==> hooks_for(state, next) == seq![
            Hook::Exit(state),
            Hook::Enter(state_after(state, next)),
        ],
        state_after(state, next) == state ==> hooks_for(state, next) == Seq::<Hook>::empty(),
{
}

} // verus!
