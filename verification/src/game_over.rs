//! Game over screen.

use vstd::prelude::*;
use crate::registry::{ObjectEntry, ScopedRegistry};
use crate::state::{AppState, Scope, StateGraph};
use crate::utils::StateOnPress;

verus! {

/// The plugin that installs the game over screen under its bound state.
pub struct GameOverPlugin {
    pub state: AppState,
}

/// The live objects of the game over screen.
#[derive(Debug, PartialEq, Eq, Structural, Clone, Copy)]
pub struct GameOverScreen {
    /// Full-screen container, also carrying the screen's camera.
    pub container: u64,
    /// The "Play again" button.
    pub play_again: u64,
    /// What pressing the button requests.
    pub play_again_action: AppState,
}

/// The state value requested by the most recent pressed button of a frame's
/// interactions, if any.
pub open spec fn last_pressed_action(s: Seq<(bool, StateOnPress<AppState>)>) -> Option<AppState>
    decreases s.len(),
{
    if s.len() == 0 {
        None
    } else if s.last().0 {
        Some(s.last().1.action)
    } else {
        last_pressed_action(s.drop_last())
    }
}

/// Spawn the game over screen: a container with the camera, and a "Play
/// again" button that requests the in-game state, all scoped to the game
/// over state.
pub fn setup_game_over(registry: &mut ScopedRegistry) -> (screen: GameOverScreen)
    requires
        old(registry).next_id + 2 <= u64::MAX,
    ensures
        final(registry).next_id == old(registry).next_id + 2,
        final(registry).entries@ == old(registry).entries@.push(
            ObjectEntry { id: screen.container, scope: Some(Scope::Top(AppState::GameOver)) },
        ).push(
            ObjectEntry { id: screen.play_again, scope: Some(Scope::Top(AppState::GameOver)) },
        ),
        screen.container == old(registry).next_id,
        screen.play_again == old(registry).next_id + 1,
        screen.play_again_action == AppState::InGame,
{
    let container = registry.register(Some(Scope::Top(AppState::GameOver)));
    let play_again = registry.register(Some(Scope::Top(AppState::GameOver)));
    let press = StateOnPress::from(AppState::InGame);
    GameOverScreen { container, play_again, play_again_action: press.action }
}

/// Request the transition carried by each pressed button, in interaction
/// order: with several pressed in one frame, the last request buffered wins.
pub fn action_on_press(
    graph: &mut StateGraph,
    interactions: &Vec<(bool, StateOnPress<AppState>)>,
)
    ensures
        final(graph).current == old(graph).current,
        final(graph).sub == old(graph).sub,
        final(graph).pending_sub == old(graph).pending_sub,
        final(graph).diagnostics@ == old(graph).diagnostics@,
        final(graph).pending == (match last_pressed_action(interactions@) {
            Some(a) => Some(a),
            None => old(graph).pending,
        }),
{
    let ghost all = interactions@;
    let ghost pending0 = graph.pending;
    let mut i: usize = 0;
    proof {
        assert(last_pressed_action(all.take(0int)) is None);
    }
    while i < interactions.len()
        invariant
            0 <= i <= all.len(),
            interactions@ == all,
            graph.current == old(graph).current,
            graph.sub == old(graph).sub,
            graph.pending_sub == old(graph).pending_sub,
            graph.diagnostics@ == old(graph).diagnostics@,
            graph.pending == (match last_pressed_action(all.take(i as int)) {
                Some(a) => Some(a),
                None => old(graph).pending,
            }),
        decreases all.len() - i,
    {
        let (pressed, sp) = interactions[i];
        proof {
            assert(all.take(i + 1int).drop_last() =~= all.take(i as int));
            assert(all.take(i + 1int).last() == (pressed, sp));
        }
        if pressed {
            graph.request_transition(sp.action);
        }
        i = i + 1;
    }
    proof {
        assert(all.take(all.len() as int) =~= all);
    }
}

} // verus!
