//! Main menu and its settings screen.

use vstd::prelude::*;
use crate::registry::{ObjectEntry, ScopedRegistry};
use crate::settings::Settings;
use crate::state::{AppState, LogicError, MainMenuState, Scope, StateGraph, SubStateValue};
use crate::utils::StateOnPress;

verus! {

/// The plugin that installs the main menu under its bound state.
pub struct MainMenuPlugin {
    pub state: AppState,
}

/// The plugin that installs the main menu's settings screen.
pub struct MainMenuSettingsPlugin;

/// The live objects of the main menu screen: the camera scoped to the menu
/// state itself, the rest to the menu's main sub-screen.
#[derive(Debug, PartialEq, Eq, Structural, Clone, Copy)]
pub struct MainMenuScreen {
    pub camera: u64,
    pub container: u64,
    pub play_button: u64,
    /// What pressing the play button requests.
    pub play_action: AppState,
    pub settings_button: u64,
    /// What pressing the settings button requests.
    pub settings_action: MainMenuState,
}

/// Spawn the main menu: a camera living as long as the menu state, and the
/// container with the "Play" and "Settings" buttons, destroyed when the main
/// sub-screen is left.
pub fn setup_main_menu(registry: &mut ScopedRegistry) -> (screen: MainMenuScreen)
    requires
        old(registry).next_id + 4 <= u64::MAX,
    ensures
        final(registry).next_id == old(registry).next_id + 4,
        final(registry).entries@ == old(registry).entries@.push(
            ObjectEntry { id: screen.camera, scope: Some(Scope::Top(AppState::MainMenu)) },
        ).push(
            ObjectEntry {
                id: screen.container,
                scope: Some(Scope::Sub(SubStateValue::Menu(MainMenuState::MainScreen))),
            },
        ).push(
            ObjectEntry {
                id: screen.play_button,
                scope: Some(Scope::Sub(SubStateValue::Menu(MainMenuState::MainScreen))),
            },
        ).push(
            ObjectEntry {
                id: screen.settings_button,
                scope: Some(Scope::Sub(SubStateValue::Menu(MainMenuState::MainScreen))),
            },
        ),
        screen.camera == old(registry).next_id,
        screen.container == old(registry).next_id + 1,
        screen.play_button == old(registry).next_id + 2,
        screen.settings_button == old(registry).next_id + 3,
        screen.play_action == AppState::InGame,
        screen.settings_action == MainMenuState::Settings,
{
    let camera = registry.register(Some(Scope::Top(AppState::MainMenu)));
    let scope = Some(Scope::Sub(SubStateValue::Menu(MainMenuState::MainScreen)));
    let container = registry.register(scope);
    let play_button = registry.register(scope);
    let settings_button = registry.register(scope);
    let play = StateOnPress::from(AppState::InGame);
    let settings = StateOnPress::from(MainMenuState::Settings);
    MainMenuScreen {
        camera,
        container,
        play_button,
        play_action: play.action,
        settings_button,
        settings_action: settings.action,
    }
}

/// The live objects of the settings screen, all scoped to the settings
/// sub-screen.
#[derive(Debug, PartialEq, Eq, Structural, Clone, Copy)]
pub struct MainMenuSettingsScreen {
    pub container: u64,
    pub vsync_button: u64,
    pub back_button: u64,
    /// What pressing the back button requests.
    pub back_action: MainMenuState,
}

/// Spawn the settings screen: container, the vsync toggle and the "Back"
/// button, destroyed when the settings sub-screen is left.
pub fn setup_main_menu_settings(registry: &mut ScopedRegistry) -> (screen: MainMenuSettingsScreen)
    requires
        old(registry).next_id + 3 <= u64::MAX,
    ensures
        final(registry).next_id == old(registry).next_id + 3,
        final(registry).entries@ == old(registry).entries@.push(
            ObjectEntry {
                id: screen.container,
                scope: Some(Scope::Sub(SubStateValue::Menu(MainMenuState::Settings))),
            },
        ).push(
            ObjectEntry {
                id: screen.vsync_button,
                scope: Some(Scope::Sub(SubStateValue::Menu(MainMenuState::Settings))),
            },
        ).push(
            ObjectEntry {
                id: screen.back_button,
                scope: Some(Scope::Sub(SubStateValue::Menu(MainMenuState::Settings))),
            },
        ),
        screen.container == old(registry).next_id,
        screen.vsync_button == old(registry).next_id + 1,
        screen.back_button == old(registry).next_id + 2,
        screen.back_action == MainMenuState::MainScreen,
{
    let scope = Some(Scope::Sub(SubStateValue::Menu(MainMenuState::Settings)));
    let container = registry.register(scope);
    let vsync_button = registry.register(scope);
    let back_button = registry.register(scope);
    let back = StateOnPress::from(MainMenuState::MainScreen);
    MainMenuSettingsScreen { container, vsync_button, back_button, back_action: back.action }
}

/// On the play button, request the transition it carries; with several
/// pressed buttons in one frame the last buffered request wins.
pub fn start_game(graph: &mut StateGraph, interactions: &Vec<(bool, StateOnPress<AppState>)>)
    ensures
        final(graph).current == old(graph).current,
        final(graph).sub == old(graph).sub,
        final(graph).pending_sub == old(graph).pending_sub,
        final(graph).diagnostics@ == old(graph).diagnostics@,
        final(graph).pending == (match crate::game_over::last_pressed_action(interactions@) {
            Some(a) => Some(a),
            None => old(graph).pending,
        }),
{
    crate::game_over::action_on_press(graph, interactions)
}

/// The sub-screen values carried by the pressed buttons of one frame, in
/// interaction order.
pub open spec fn pressed_menu_actions(s: Seq<(bool, StateOnPress<MainMenuState>)>) -> Seq<
    MainMenuState,
>
    decreases s.len(),
{
    if s.len() == 0 {
        Seq::empty()
    } else if s.last().0 {
        pressed_menu_actions(s.drop_last()).push(s.last().1.action)
    } else {
        pressed_menu_actions(s.drop_last())
    }
}

/// The diagnostics recorded when these sub-screen requests are made while
/// the menu's parent state is not current.
pub open spec fn menu_press_diags(actions: Seq<MainMenuState>, current: AppState) -> Seq<
    LogicError,
>
    decreases actions.len(),
{
    if actions.len() == 0 {
        Seq::empty()
    } else {
        menu_press_diags(actions.drop_last(), current).push(
            LogicError::SubRequestParentNotCurrent {
                requested: SubStateValue::Menu(actions.last()),
                current,
            },
        )
    }
}

/// Request the sub-screen carried by each pressed button, in interaction
/// order: the last buffered request wins. While the main menu is not
/// current every such request is dropped with a diagnostic.
pub fn request_menu_screen_on_press(
    graph: &mut StateGraph,
    interactions: &Vec<(bool, StateOnPress<MainMenuState>)>,
)
    ensures
        final(graph).current == old(graph).current,
        final(graph).sub == old(graph).sub,
        final(graph).pending == old(graph).pending,
        old(graph).current == AppState::MainMenu ==> {
            &&& final(graph).diagnostics@ == old(graph).diagnostics@
            &&& final(graph).pending_sub == if pressed_menu_actions(interactions@).len() > 0 {
                Some(SubStateValue::Menu(pressed_menu_actions(interactions@).last()))
            } else {
                old(graph).pending_sub
            }
        },
        old(graph).current != AppState::MainMenu ==> {
            &&& final(graph).pending_sub == old(graph).pending_sub
            &&& final(graph).diagnostics@ == old(graph).diagnostics@ + menu_press_diags(
                pressed_menu_actions(interactions@),
                old(graph).current,
            )
        },
{
    let ghost all = interactions@;
    let mut i: usize = 0;
    proof {
        assert(pressed_menu_actions(all.take(0int)) =~= Seq::<MainMenuState>::empty());
        assert(old(graph).diagnostics@ + menu_press_diags(
            pressed_menu_actions(all.take(0int)),
            old(graph).current,
        ) =~= old(graph).diagnostics@);
    }
    while i < interactions.len()
        invariant
            0 <= i <= all.len(),
            interactions@ == all,
            graph.current == old(graph).current,
            graph.sub == old(graph).sub,
            graph.pending == old(graph).pending,
            old(graph).current == AppState::MainMenu ==> {
                &&& graph.diagnostics@ == old(graph).diagnostics@
                &&& graph.pending_sub == if pressed_menu_actions(all.take(i as int)).len() > 0 {
                    Some(SubStateValue::Menu(pressed_menu_actions(all.take(i as int)).last()))
                } else {
                    old(graph).pending_sub
                }
            },
            old(graph).current != AppState::MainMenu ==> {
                &&& graph.pending_sub == old(graph).pending_sub
                &&& graph.diagnostics@ == old(graph).diagnostics@ + menu_press_diags(
                    pressed_menu_actions(all.take(i as int)),
                    old(graph).current,
                )
            },
        decreases all.len() - i,
    {
        let (pressed, sp) = interactions[i];
        proof {
            assert(all.take(i + 1int).drop_last() =~= all.take(i as int));
            assert(all.take(i + 1int).last() == (pressed, sp));
            let cur = old(graph).current;
            let pa0 = pressed_menu_actions(all.take(i as int));
            let pa1 = pressed_menu_actions(all.take(i + 1int));
            if pressed {
                assert(pa1 == pa0.push(sp.action));
                assert(pa1.drop_last() =~= pa0);
                assert(pa1.last() == sp.action);
                assert(menu_press_diags(pa1, cur) == menu_press_diags(pa0, cur).push(
                    LogicError::SubRequestParentNotCurrent {
                        requested: SubStateValue::Menu(sp.action),
                        current: cur,
                    },
                ));
                assert(old(graph).diagnostics@ + menu_press_diags(pa1, cur) =~= (old(
                    graph,
                ).diagnostics@ + menu_press_diags(pa0, cur)).push(
                    LogicError::SubRequestParentNotCurrent {
                        requested: SubStateValue::Menu(sp.action),
                        current: cur,
                    },
                ));
            } else {
                assert(pa1 == pa0);
            }
        }
        if pressed {
            graph.request_sub_transition(SubStateValue::Menu(sp.action));
        }
        i = i + 1;
    }
    proof {
        assert(all.take(all.len() as int) =~= all);
    }
}

/// On the settings button, request the menu's settings sub-screen.
pub fn go_to_settings(graph: &mut StateGraph, interactions: &Vec<(bool, StateOnPress<MainMenuState>)>)
    ensures
        final(graph).current == old(graph).current,
        final(graph).sub == old(graph).sub,
        final(graph).pending == old(graph).pending,
        old(graph).current == AppState::MainMenu ==> {
            &&& final(graph).diagnostics@ == old(graph).diagnostics@
            &&& final(graph).pending_sub == if pressed_menu_actions(interactions@).len() > 0 {
                Some(SubStateValue::Menu(pressed_menu_actions(interactions@).last()))
            } else {
                old(graph).pending_sub
            }
        },
        old(graph).current != AppState::MainMenu ==> {
            &&& final(graph).pending_sub == old(graph).pending_sub
            &&& final(graph).diagnostics@ == old(graph).diagnostics@ + menu_press_diags(
                pressed_menu_actions(interactions@),
                old(graph).current,
            )
        },
{
    request_menu_screen_on_press(graph, interactions)
}

/// On the back button, request the menu's main sub-screen.
pub fn go_back(graph: &mut StateGraph, interactions: &Vec<(bool, StateOnPress<MainMenuState>)>)
    ensures
        final(graph).current == old(graph).current,
        final(graph).sub == old(graph).sub,
        final(graph).pending == old(graph).pending,
        old(graph).current == AppState::MainMenu ==> {
            &&& final(graph).diagnostics@ == old(graph).diagnostics@
            &&& final(graph).pending_sub == if pressed_menu_actions(interactions@).len() > 0 {
                Some(SubStateValue::Menu(pressed_menu_actions(interactions@).last()))
            } else {
                old(graph).pending_sub
            }
        },
        old(graph).current != AppState::MainMenu ==> {
            &&& final(graph).pending_sub == old(graph).pending_sub
            &&& final(graph).diagnostics@ == old(graph).diagnostics@ + menu_press_diags(
                pressed_menu_actions(interactions@),
                old(graph).current,
            )
        },
{
    request_menu_screen_on_press(graph, interactions)
}

/// On the vsync toggle, flip the setting and return the button's new label.
pub fn toggle_vsync(settings: &mut Settings, pressed: bool) -> (label: Option<&'static str>)
    ensures
        final(settings).music_level == old(settings).music_level,
        final(settings).sound_level == old(settings).sound_level,
        final(settings).language == old(settings).language,
        !pressed ==> {
            &&& final(settings).vsync_enabled == old(settings).vsync_enabled
            &&& label is None
        },
        pressed ==> {
            &&& final(settings).vsync_enabled == !old(settings).vsync_enabled
            &&& label matches Some(l) && l@ == (if final(settings).vsync_enabled {
                "VSync Enabled"@
            } else {
                "VSync Disabled"@
            })
        },
{
    if pressed {
        settings.vsync_enabled = !settings.vsync_enabled;
        if settings.vsync_enabled {
            Some("VSync Enabled")
        } else {
            Some("VSync Disabled")
        }
    } else {
        None
    }
}

} // verus!
