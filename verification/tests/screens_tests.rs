use boss_rush::assets::{load_example_assets, load_ui_assets, add_cursor, AssetsLoadingPlugin};
use boss_rush::element::Element;
use boss_rush::enemy::Enemy;
use boss_rush::game::{animate_sprite, setup_game, spawn_example_tree};
use boss_rush::game_over::{action_on_press, setup_game_over, GameOverPlugin};
use boss_rush::loading::{setup_loadscreen, update_loading_pct, LoadscreenPlugin};
use boss_rush::main_menu::{
    go_back, go_to_settings, setup_main_menu, setup_main_menu_settings, start_game, toggle_vsync,
    MainMenuPlugin, MainMenuSettingsPlugin,
};
use boss_rush::pause::{go_to_main_menu, setup_paused_screen, toggle_pause, PausePlugin};
use boss_rush::player::{spawn_player, use_actions, PlayerEvents};
use boss_rush::progress::ProgressTracker;
use boss_rush::rational::Q;
use boss_rush::registry::ScopedRegistry;
use boss_rush::settings::{update_settings, Language, PresentMode, Settings, SettingsPlugin};
use boss_rush::state::{
    AppState, InGameState, MainMenuState, Scope, StateGraph, SubStateValue,
};
use boss_rush::ui::VirtualClock;
use boss_rush::utils::StateOnPress;

#[test]
fn loading_gate_requests_menu_exactly_once() {
    let mut graph = StateGraph::new();
    let mut registry = ScopedRegistry::new();
    let mut tracker = ProgressTracker::new();
    let plugin = AssetsLoadingPlugin;
    let _screen = setup_loadscreen(&mut registry, LoadscreenPlugin { state: AppState::AssetsLoading }.state);

    let example = load_example_assets(&mut tracker, 10, 11);
    let ui = load_ui_assets(&mut tracker, 20, 21, 22, 23, 24);
    assert_eq!(example.tree, 10);
    assert_eq!(ui.cursors, vec![21, 22, 23, 24]);
    assert_eq!(tracker.pending, 7);

    assert!(!plugin.check_loading_gate(&mut tracker, &mut graph));
    tracker.mark_ready(10);
    tracker.mark_ready(11);
    tracker.mark_ready(20);
    tracker.mark_ready(21);
    tracker.mark_ready(22);
    tracker.mark_failed(23);
    assert!(!plugin.check_loading_gate(&mut tracker, &mut graph));
    tracker.mark_ready(24);
    assert!(plugin.check_loading_gate(&mut tracker, &mut graph));
    assert!(!plugin.check_loading_gate(&mut tracker, &mut graph));
    graph.apply_transitions(&mut registry);
    assert_eq!(graph.current(), AppState::MainMenu);
    // Exiting the loading state purged its screen.
    assert_eq!(registry.count_in_scope(Scope::Top(AppState::AssetsLoading)), 0);
    assert_eq!(add_cursor(&ui), 21);
}

#[test]
fn loading_bar_width_is_fraction_times_hundred() {
    let mut tracker = ProgressTracker::new();
    for id in 0..4u64 {
        tracker.track(id);
    }
    tracker.mark_ready(0);
    tracker.mark_ready(1);
    assert!(update_loading_pct(&tracker).eq_q(&Q::new(50, 1)));
}

#[test]
fn main_menu_setup_scopes_and_actions() {
    let mut registry = ScopedRegistry::new();
    let plugin = MainMenuPlugin { state: AppState::MainMenu };
    assert_eq!(plugin.state, AppState::MainMenu);
    let screen = setup_main_menu(&mut registry);
    assert_eq!(screen.play_action, AppState::InGame);
    assert_eq!(screen.settings_action, MainMenuState::Settings);
    assert_eq!(registry.len(), 4);
    // Leaving the main sub-screen keeps the menu camera.
    registry.purge(Scope::Sub(SubStateValue::Menu(MainMenuState::MainScreen)));
    assert!(registry.contains(screen.camera));
    assert!(!registry.contains(screen.play_button));
    // Leaving the menu state purges everything, nested sub-screens included.
    let screen = setup_main_menu(&mut registry);
    registry.purge(Scope::Top(AppState::MainMenu));
    assert!(!registry.contains(screen.camera));
    assert!(!registry.contains(screen.container));
    assert_eq!(registry.len(), 0);
}

#[test]
fn settings_screen_setup_and_vsync_toggle() {
    let mut registry = ScopedRegistry::new();
    let _plugin = MainMenuSettingsPlugin;
    let screen = setup_main_menu_settings(&mut registry);
    assert_eq!(screen.back_action, MainMenuState::MainScreen);
    assert_eq!(registry.len(), 3);

    let mut settings = SettingsPlugin.build();
    assert!(settings.vsync_enabled);
    assert_eq!(settings.language, Language::English);
    assert_eq!(toggle_vsync(&mut settings, false), None);
    assert!(settings.vsync_enabled);
    assert_eq!(toggle_vsync(&mut settings, true), Some("VSync Disabled"));
    assert!(!settings.vsync_enabled);
    assert_eq!(update_settings(&settings), PresentMode::AutoNoVsync);
    assert_eq!(toggle_vsync(&mut settings, true), Some("VSync Enabled"));
    assert_eq!(update_settings(&settings), PresentMode::AutoVsync);
}

#[test]
fn menu_buttons_request_states_last_press_wins() {
    let mut graph = StateGraph::new();
    let mut registry = ScopedRegistry::new();
    graph.request_transition(AppState::MainMenu);
    graph.apply_transitions(&mut registry);

    let buttons = vec![
        (false, StateOnPress::from(AppState::GameOver)),
        (true, StateOnPress::from(AppState::InGame)),
    ];
    start_game(&mut graph, &buttons);
    graph.apply_transitions(&mut registry);
    assert_eq!(graph.current(), AppState::InGame);
}

#[test]
fn settings_navigation_within_menu() {
    let mut graph = StateGraph::new();
    let mut registry = ScopedRegistry::new();
    graph.request_transition(AppState::MainMenu);
    graph.apply_transitions(&mut registry);

    let to_settings = vec![(true, StateOnPress::from(MainMenuState::Settings))];
    go_to_settings(&mut graph, &to_settings);
    graph.apply_transitions(&mut registry);
    assert_eq!(
        graph.current_sub(AppState::MainMenu),
        Some(SubStateValue::Menu(MainMenuState::Settings))
    );

    let back = vec![(true, StateOnPress::from(MainMenuState::MainScreen))];
    go_back(&mut graph, &back);
    graph.apply_transitions(&mut registry);
    assert_eq!(
        graph.current_sub(AppState::MainMenu),
        Some(SubStateValue::Menu(MainMenuState::MainScreen))
    );
}

#[test]
fn menu_navigation_outside_menu_only_diagnoses() {
    let mut graph = StateGraph::new();
    let before = graph.current_sub(AppState::MainMenu);
    let to_settings = vec![(true, StateOnPress::from(MainMenuState::Settings))];
    go_to_settings(&mut graph, &to_settings);
    assert_eq!(graph.current_sub(AppState::MainMenu), before);
    assert_eq!(graph.diagnostics.len(), 1);
}

#[test]
fn pause_toggles_sub_state_and_virtual_clock() {
    let mut graph = StateGraph::new();
    let mut registry = ScopedRegistry::new();
    let mut clock = VirtualClock::new();
    let _plugin = PausePlugin;
    graph.request_transition(AppState::InGame);
    graph.apply_transitions(&mut registry);

    // No press: nothing happens.
    toggle_pause(&mut graph, &mut clock, false);
    graph.apply_transitions(&mut registry);
    assert_eq!(
        graph.current_sub(AppState::InGame),
        Some(SubStateValue::InGame(InGameState::Running))
    );

    toggle_pause(&mut graph, &mut clock, true);
    assert!(clock.paused);
    graph.apply_transitions(&mut registry);
    assert_eq!(
        graph.current_sub(AppState::InGame),
        Some(SubStateValue::InGame(InGameState::Paused))
    );

    let screen = setup_paused_screen(&mut registry);
    assert_eq!(registry.len(), 3);

    toggle_pause(&mut graph, &mut clock, true);
    assert!(!clock.paused);
    graph.apply_transitions(&mut registry);
    assert_eq!(
        graph.current_sub(AppState::InGame),
        Some(SubStateValue::InGame(InGameState::Running))
    );
    // Leaving the paused sub-state destroyed its screen.
    assert!(!registry.contains(screen.container));
    assert_eq!(registry.len(), 0);
}

#[test]
fn pause_toggle_outside_game_does_nothing() {
    let mut graph = StateGraph::new();
    let mut clock = VirtualClock::new();
    toggle_pause(&mut graph, &mut clock, true);
    assert!(!clock.paused);
    assert_eq!(graph.diagnostics.len(), 0);
}

#[test]
fn pause_screen_button_returns_to_main_menu() {
    let mut graph = StateGraph::new();
    let mut registry = ScopedRegistry::new();
    graph.request_transition(AppState::InGame);
    graph.apply_transitions(&mut registry);
    go_to_main_menu(&mut graph, false);
    graph.apply_transitions(&mut registry);
    assert_eq!(graph.current(), AppState::InGame);
    go_to_main_menu(&mut graph, true);
    graph.apply_transitions(&mut registry);
    assert_eq!(graph.current(), AppState::MainMenu);
}

#[test]
fn game_over_screen_and_play_again() {
    let mut graph = StateGraph::new();
    let mut registry = ScopedRegistry::new();
    let plugin = GameOverPlugin { state: AppState::GameOver };
    graph.request_transition(plugin.state);
    graph.apply_transitions(&mut registry);

    let screen = setup_game_over(&mut registry);
    assert_eq!(screen.play_again_action, AppState::InGame);
    assert_eq!(registry.len(), 2);

    let buttons = vec![(true, StateOnPress::from(screen.play_again_action))];
    action_on_press(&mut graph, &buttons);
    graph.apply_transitions(&mut registry);
    assert_eq!(graph.current(), AppState::InGame);
    assert_eq!(registry.len(), 0);
}

#[test]
fn game_setup_and_tree_animation() {
    let mut registry = ScopedRegistry::new();
    let setup = setup_game(&mut registry);
    let mut tree = spawn_example_tree(&mut registry);
    assert_eq!(registry.len(), 3);
    assert_eq!(setup.camera, 0);
    assert_eq!(tree.indices.first, 0);
    assert_eq!(tree.indices.last, 15);

    // 30 ms frames: the 100 ms timer fires on every fourth frame.
    for _ in 0..3 {
        animate_sprite(&tree.indices, &mut tree.timer, &mut tree.atlas_index, 30);
    }
    assert_eq!(tree.atlas_index, 0);
    animate_sprite(&tree.indices, &mut tree.timer, &mut tree.atlas_index, 30);
    assert_eq!(tree.atlas_index, 1);
    assert_eq!(tree.timer.elapsed_millis, 20);

    // The animation wraps from the last frame back to the first.
    tree.atlas_index = 15;
    tree.timer.elapsed_millis = 0;
    animate_sprite(&tree.indices, &mut tree.timer, &mut tree.atlas_index, 100);
    assert_eq!(tree.atlas_index, 0);
}

#[test]
fn player_spawn_and_actions() {
    let mut registry = ScopedRegistry::new();
    let mut player = spawn_player(&mut registry);
    assert!(player.mover.physical.x.eq_q(&Q::new(500, 1)));
    assert!(player.mover.bundle.damping.0.eq_q(&Q::new(23, 25)));

    let dt = Q::new(1, 60);
    let events = use_actions(&mut player.mover, 0, 0, &dt, true, false);
    assert_eq!(events, PlayerEvents { dash: true, attack: false });
    assert!(player.mover.velocity.x.eq_q(&Q::zero()));

    // Axis (3, 4) normalizes to (3/5, 4/5); acceleration 1250 over 1/60 s.
    let events = use_actions(&mut player.mover, 3, 4, &dt, false, true);
    assert!(events.attack && !events.dash);
    assert!(player.mover.velocity.x.eq_q(&Q::new(1250, 100)));
    assert!(player.mover.velocity.y.eq_q(&Q::new(5000, 300)));
}

#[test]
fn element_damage_multipliers() {
    assert!(Element::Fire.damage_multiplier(&Element::Water).eq_q(&Q::new(1, 2)));
    assert!(Element::Fire.damage_multiplier(&Element::Electric).eq_q(&Q::new(3, 2)));
    assert!(Element::Fire.damage_multiplier(&Element::Earth).eq_q(&Q::one()));
    assert!(Element::Water.damage_multiplier(&Element::Fire).eq_q(&Q::new(3, 2)));
    assert!(Element::Earth.damage_multiplier(&Element::Electric).eq_q(&Q::new(1, 2)));
    assert!(Element::Fire.damage_multiplier(&Element::Fire).eq_q(&Q::one()));
    let enemy = Enemy { hp: 10, attack: 3 };
    assert_eq!(enemy.hp, 10);
}
