use boss_rush::registry::ScopedRegistry;
use boss_rush::state::{
    AppState, AppStatePlugin, InGameState, MainMenuState, Scope, StateEvent, StateGraph,
    SubStateValue,
};

#[test]
fn initial_state_is_loading() {
    let graph = AppStatePlugin.build();
    assert_eq!(graph.current(), AppState::AssetsLoading);
    assert_eq!(graph.current_sub(AppState::AssetsLoading), None);
    assert_eq!(graph.current_sub(AppState::InGame), None);
}

#[test]
fn last_buffered_request_wins() {
    let mut graph = StateGraph::new();
    let mut registry = ScopedRegistry::new();
    graph.request_transition(AppState::MainMenu);
    graph.request_transition(AppState::GameOver);
    graph.request_transition(AppState::InGame);
    graph.apply_transitions(&mut registry);
    assert_eq!(graph.current(), AppState::InGame);
}

#[test]
fn entering_parent_initializes_default_sub_state() {
    let mut graph = StateGraph::new();
    let mut registry = ScopedRegistry::new();
    graph.request_transition(AppState::InGame);
    graph.apply_transitions(&mut registry);
    assert_eq!(
        graph.current_sub(AppState::InGame),
        Some(SubStateValue::InGame(InGameState::Running))
    );
    graph.request_transition(AppState::MainMenu);
    graph.apply_transitions(&mut registry);
    assert_eq!(
        graph.current_sub(AppState::MainMenu),
        Some(SubStateValue::Menu(MainMenuState::MainScreen))
    );
    assert_eq!(graph.current_sub(AppState::InGame), None);
}

#[test]
fn sub_request_with_wrong_parent_is_dropped_with_diagnostic() {
    let mut graph = StateGraph::new();
    let mut registry = ScopedRegistry::new();
    let before = graph.current_sub(AppState::InGame);
    graph.request_sub_transition(SubStateValue::InGame(InGameState::Paused));
    assert_eq!(graph.current_sub(AppState::InGame), before);
    assert_eq!(graph.diagnostics.len(), 1);
    graph.apply_transitions(&mut registry);
    assert_eq!(graph.current(), AppState::AssetsLoading);
    assert_eq!(graph.current_sub(AppState::InGame), None);
}

#[test]
fn sub_transition_applies_under_current_parent() {
    let mut graph = StateGraph::new();
    let mut registry = ScopedRegistry::new();
    graph.request_transition(AppState::InGame);
    graph.apply_transitions(&mut registry);
    graph.request_sub_transition(SubStateValue::InGame(InGameState::Paused));
    assert_eq!(graph.diagnostics.len(), 0);
    graph.apply_transitions(&mut registry);
    assert_eq!(
        graph.current_sub(AppState::InGame),
        Some(SubStateValue::InGame(InGameState::Paused))
    );
}

#[test]
fn transition_events_run_exits_specific_first_enters_general_first() {
    let mut graph = StateGraph::new();
    let mut registry = ScopedRegistry::new();
    graph.request_transition(AppState::InGame);
    let events = graph.apply_transitions(&mut registry);
    assert_eq!(
        events,
        vec![
            StateEvent::Exited(Scope::Top(AppState::AssetsLoading)),
            StateEvent::Entered(Scope::Top(AppState::InGame)),
            StateEvent::Entered(Scope::Sub(SubStateValue::InGame(InGameState::Running))),
        ]
    );
    graph.request_transition(AppState::GameOver);
    let events = graph.apply_transitions(&mut registry);
    assert_eq!(
        events,
        vec![
            StateEvent::Exited(Scope::Sub(SubStateValue::InGame(InGameState::Running))),
            StateEvent::Exited(Scope::Top(AppState::InGame)),
            StateEvent::Entered(Scope::Top(AppState::GameOver)),
        ]
    );
}

#[test]
fn sub_request_dropped_when_parent_exits_same_frame() {
    let mut graph = StateGraph::new();
    let mut registry = ScopedRegistry::new();
    graph.request_transition(AppState::InGame);
    graph.apply_transitions(&mut registry);
    graph.request_sub_transition(SubStateValue::InGame(InGameState::Paused));
    graph.request_transition(AppState::MainMenu);
    let diags_before = graph.diagnostics.len();
    graph.apply_transitions(&mut registry);
    assert_eq!(graph.current(), AppState::MainMenu);
    assert_eq!(
        graph.current_sub(AppState::MainMenu),
        Some(SubStateValue::Menu(MainMenuState::MainScreen))
    );
    assert_eq!(graph.diagnostics.len(), diags_before + 1);
}

#[test]
fn apply_purges_exited_scopes() {
    let mut graph = StateGraph::new();
    let mut registry = ScopedRegistry::new();
    graph.request_transition(AppState::InGame);
    graph.apply_transitions(&mut registry);
    let in_game = registry.register(Some(Scope::Top(AppState::InGame)));
    let running = registry.register(Some(Scope::Sub(SubStateValue::InGame(
        InGameState::Running,
    ))));
    let persistent = registry.register(None);
    graph.request_transition(AppState::GameOver);
    graph.apply_transitions(&mut registry);
    assert!(!registry.contains(in_game));
    assert!(!registry.contains(running));
    assert!(registry.contains(persistent));
}
