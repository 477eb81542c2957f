//! Pause screen and pause toggling.

use vstd::prelude::*;
use crate::registry::{ObjectEntry, ScopedRegistry};
use crate::state::{AppState, InGameState, Scope, StateGraph, SubStateValue};
use crate::ui::VirtualClock;

verus! {

/// The plugin that installs the pause screen and the pause controls.
pub struct PausePlugin;

/// The live objects of the pause screen, all scoped to the paused sub-state.
#[derive(Debug, PartialEq, Eq, Structural, Clone, Copy)]
pub struct PauseScreen {
    pub container: u64,
    pub title: u64,
    pub main_menu_button: u64,
}

/// Spawn the pause screen: container, title text and the "Return to Main
/// Menu" button, destroyed when the paused sub-state is exited.
pub fn setup_paused_screen(registry: &mut ScopedRegistry) -> (screen: PauseScreen)
    requires
        old(registry).next_id + 3 <= u64::MAX,
    ensures
        final(registry).next_id == old(registry).next_id + 3,
        final(registry).entries@ == old(registry).entries@.push(
            ObjectEntry {
                id: screen.container,
                scope: Some(Scope::Sub(SubStateValue::InGame(InGameState::Paused))),
            },
        ).push(
            ObjectEntry {
                id: screen.title,
                scope: Some(Scope::Sub(SubStateValue::InGame(InGameState::Paused))),
            },
        ).push(
            ObjectEntry {
                id: screen.main_menu_button,
                scope: Some(Scope::Sub(SubStateValue::InGame(InGameState::Paused))),
            },
        ),
        screen.container == old(registry).next_id,
        screen.title == old(registry).next_id + 1,
        screen.main_menu_button == old(registry).next_id + 2,
{
    let scope = Some(Scope::Sub(SubStateValue::InGame(InGameState::Paused)));
    let container = registry.register(scope);
    let title = registry.register(scope);
    let main_menu_button = registry.register(scope);
    PauseScreen { container, title, main_menu_button }
}

/// The other in-game sub-state.
pub open spec fn spec_toggled(s: InGameState) -> InGameState {
    match s {
        InGameState::Running => InGameState::Paused,
        InGameState::Paused => InGameState::Running,
    }
}

/// The sub-state the pause key would request: defined only while the
/// in-game state is current and owns its sub-state.
pub open spec fn pause_toggle_target(g: StateGraph) -> Option<InGameState> {
    if g.current == AppState::InGame {
        match g.sub {
            Some(SubStateValue::InGame(s)) => Some(spec_toggled(s)),
            _ => None,
        }
    } else {
        None
    }
}

/// On the pause key, request the toggle of the in-game sub-state and pause
/// or unpause virtual time to match. Does nothing without the key press or
/// outside the in-game state, where the sub-state does not exist.
pub fn toggle_pause(graph: &mut StateGraph, clock: &mut VirtualClock, esc_pressed: bool)
    ensures
        final(graph).current == old(graph).current,
        final(graph).sub == old(graph).sub,
        final(graph).pending == old(graph).pending,
        final(graph).diagnostics@ == old(graph).diagnostics@,
        final(clock).elapsed_seconds == old(clock).elapsed_seconds,
        esc_pressed ==> (pause_toggle_target(*old(graph)) matches Some(next) ==> {
            &&& final(graph).pending_sub == Some(SubStateValue::InGame(next))
            &&& final(clock).paused == (next == InGameState::Paused)
        }),
        !(esc_pressed && pause_toggle_target(*old(graph)) is Some) ==> {
            &&& final(graph).pending_sub == old(graph).pending_sub
            &&& final(clock).paused == old(clock).paused
        },
{
    if esc_pressed {
        match graph.current_sub(AppState::InGame) {
            Some(SubStateValue::InGame(s)) => {
                let next = match s {
                    InGameState::Running => InGameState::Paused,
                    InGameState::Paused => InGameState::Running,
                };
                graph.request_sub_transition(SubStateValue::InGame(next));
                if next == InGameState::Paused {
                    clock.pause();
                } else {
                    clock.unpause();
                }
            },
            _ => {},
        }
    }
}

/// On the pause screen's button, request the transition back to the main
/// menu.
pub fn go_to_main_menu(graph: &mut StateGraph, pressed: bool)
    ensures
        final(graph).current == old(graph).current,
        final(graph).sub == old(graph).sub,
        final(graph).pending_sub == old(graph).pending_sub,
        final(graph).diagnostics@ == old(graph).diagnostics@,
        final(graph).pending == if pressed {
            Some(AppState::MainMenu)
        } else {
            old(graph).pending
        },
{
    if pressed {
        graph.request_transition(AppState::MainMenu);
    }
}

} // verus!
