use boss_rush::registry::ScopedRegistry;
use boss_rush::state::{AppState, InGameState, Scope, SubStateValue};

#[test]
fn purge_removes_scope_and_nested_sub_scopes() {
    let mut registry = ScopedRegistry::new();
    let camera = registry.register(Some(Scope::Top(AppState::InGame)));
    let pause_ui = registry.register(Some(Scope::Sub(SubStateValue::InGame(
        InGameState::Paused,
    ))));
    let menu_camera = registry.register(Some(Scope::Top(AppState::MainMenu)));
    let persistent = registry.register(None);

    registry.purge(Scope::Top(AppState::InGame));

    assert_eq!(registry.count_in_scope(Scope::Top(AppState::InGame)), 0);
    assert!(!registry.contains(camera));
    assert!(!registry.contains(pause_ui));
    assert!(registry.contains(menu_camera));
    assert!(registry.contains(persistent));
    assert_eq!(registry.len(), 2);
}

#[test]
fn purge_of_sub_scope_keeps_parent_scope() {
    let mut registry = ScopedRegistry::new();
    let camera = registry.register(Some(Scope::Top(AppState::InGame)));
    let pause_ui = registry.register(Some(Scope::Sub(SubStateValue::InGame(
        InGameState::Paused,
    ))));
    registry.purge(Scope::Sub(SubStateValue::InGame(InGameState::Paused)));
    assert!(registry.contains(camera));
    assert!(!registry.contains(pause_ui));
}

#[test]
fn purge_is_idempotent() {
    let mut registry = ScopedRegistry::new();
    registry.register(Some(Scope::Top(AppState::GameOver)));
    registry.register(None);
    registry.purge(Scope::Top(AppState::GameOver));
    let len_after_first = registry.len();
    registry.purge(Scope::Top(AppState::GameOver));
    assert_eq!(registry.len(), len_after_first);
    assert_eq!(registry.count_in_scope(Scope::Top(AppState::GameOver)), 0);
}

#[test]
fn purge_of_empty_scope_is_a_no_op() {
    let mut registry = ScopedRegistry::new();
    let a = registry.register(Some(Scope::Top(AppState::MainMenu)));
    registry.purge(Scope::Top(AppState::InGame));
    assert!(registry.contains(a));
    assert_eq!(registry.len(), 1);
}

#[test]
fn register_hands_out_fresh_sequential_ids() {
    let mut registry = ScopedRegistry::new();
    let a = registry.register(None);
    let b = registry.register(Some(Scope::Top(AppState::InGame)));
    assert_eq!(a, 0);
    assert_eq!(b, 1);
    assert_eq!(registry.len(), 2);
}
