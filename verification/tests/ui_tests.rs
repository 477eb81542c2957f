use boss_rush::registry::ScopedRegistry;
use boss_rush::ui::{
    decimal_string, spawn_timer, two_digit_string, update_virtual_time_info_text, VirtualClock,
};

#[test]
fn virtual_time_text_formats_hours_minutes_seconds() {
    let mut clock = VirtualClock::new();
    assert_eq!(update_virtual_time_info_text(&clock), "virtual: 00:00:00");
    clock.tick(3725);
    assert_eq!(update_virtual_time_info_text(&clock), "virtual: 01:02:05");
    clock.tick(360000 - 3725);
    assert_eq!(update_virtual_time_info_text(&clock), "virtual: 100:00:00");
}

#[test]
fn paused_clock_stands_still() {
    let mut clock = VirtualClock::new();
    clock.tick(10);
    clock.pause();
    clock.tick(50);
    assert_eq!(clock.elapsed_seconds, 10);
    clock.unpause();
    clock.tick(5);
    assert_eq!(clock.elapsed_seconds, 15);
}

#[test]
fn decimal_strings() {
    assert_eq!(decimal_string(0), "0");
    assert_eq!(decimal_string(7), "7");
    assert_eq!(decimal_string(10), "10");
    assert_eq!(decimal_string(12345), "12345");
    assert_eq!(two_digit_string(0), "00");
    assert_eq!(two_digit_string(9), "09");
    assert_eq!(two_digit_string(59), "59");
    assert_eq!(two_digit_string(100), "100");
}

#[test]
fn timer_display_objects_are_persistent() {
    let mut registry = ScopedRegistry::new();
    let ui = spawn_timer(&mut registry);
    assert_eq!(ui.root, 0);
    assert_eq!(ui.text, 1);
    assert_eq!(registry.len(), 2);
    // Not scoped: no purge removes them.
    registry.purge(boss_rush::state::Scope::Top(boss_rush::state::AppState::InGame));
    assert_eq!(registry.len(), 2);
}
