//! Hierarchical application state.
//!
//! A small closed set of mutually exclusive top-level states, and sub-states
//! that exist only while their parent state is current. Transition requests
//! are buffered and applied at one point in the frame; when several requests
//! target the same machine in one frame, only the most recent is honored.
//! On apply, exit actions run most-specific first, the scoped registry is
//! purged for every exited value, and enter actions run least-specific first.

use vstd::prelude::*;
use crate::registry::{ObjectEntry, ScopedRegistry, purge_result};

verus! {

/// Top-level exclusive mode of the application.
#[derive(Debug, PartialEq, Eq, Structural, Clone, Copy, Hash)]
pub enum AppState {
    /// The starting state: the application is loading assets.
    AssetsLoading,
    /// The application is displaying the main menu.
    MainMenu,
    /// The application is running the game.
    InGame,
    /// The application is displaying the game over screen.
    GameOver,
}

impl Default for AppState {
    fn default() -> (r: Self)
        ensures
            r == AppState::AssetsLoading,
    {
        AppState::AssetsLoading
    }
}

/// Mode nested under [`AppState::InGame`].
#[derive(Debug, PartialEq, Eq, Structural, Clone, Copy, Hash)]
pub enum InGameState {
    Running,
    Paused,
}

impl Default for InGameState {
    fn default() -> (r: Self)
        ensures
            r == InGameState::Running,
    {
        InGameState::Running
    }
}

/// Mode nested under [`AppState::MainMenu`].
#[derive(Debug, PartialEq, Eq, Structural, Clone, Copy, Hash)]
pub enum MainMenuState {
    MainScreen,
    Settings,
}

impl Default for MainMenuState {
    fn default() -> (r: Self)
        ensures
            r == MainMenuState::MainScreen,
    {
        MainMenuState::MainScreen
    }
}

/// Any sub-state value, tagged with the machine it belongs to.
#[derive(Debug, PartialEq, Eq, Structural, Clone, Copy, Hash)]
pub enum SubStateValue {
    InGame(InGameState),
    Menu(MainMenuState),
}

/// The top-level state a sub-state value requires to be current.
pub open spec fn parent_of(s: SubStateValue) -> AppState {
    match s {
        SubStateValue::InGame(_) => AppState::InGame,
        SubStateValue::Menu(_) => AppState::MainMenu,
    }
}

/// Executable form of [`parent_of`].
pub fn parent_state(s: SubStateValue) -> (r: AppState)
    ensures
        r == parent_of(s),
{
    match s {
        SubStateValue::InGame(_) => AppState::InGame,
        SubStateValue::Menu(_) => AppState::MainMenu,
    }
}

/// The sub-state machine a top-level state re-initializes on enter, if any,
/// at that machine's declared default value.
pub open spec fn default_sub_of(top: AppState) -> Option<SubStateValue> {
    match top {
        AppState::InGame => Some(SubStateValue::InGame(InGameState::Running)),
        AppState::MainMenu => Some(SubStateValue::Menu(MainMenuState::MainScreen)),
        _ => None,
    }
}

/// Executable form of [`default_sub_of`].
pub fn default_sub(top: AppState) -> (r: Option<SubStateValue>)
    ensures
        r == default_sub_of(top),
{
    match top {
        AppState::InGame => Some(SubStateValue::InGame(InGameState::Running)),
        AppState::MainMenu => Some(SubStateValue::Menu(MainMenuState::MainScreen)),
        _ => None,
    }
}

/// The scope tag recorded on a live object: the state value (top or sub)
/// that was current when the object was created.
#[derive(Debug, PartialEq, Eq, Structural, Clone, Copy, Hash)]
pub enum Scope {
    Top(AppState),
    Sub(SubStateValue),
}

/// A recoverable logic error: an invalid transition request, dropped and
/// surfaced as a diagnostic instead of being applied.
#[derive(Debug, PartialEq, Eq, Structural, Clone, Copy)]
pub enum LogicError {
    /// A sub-state transition was requested while the sub-state's required
    /// parent was not the current top-level state.
    SubRequestParentNotCurrent { requested: SubStateValue, current: AppState },
    /// A buffered sub-state request became invalid because a top-level
    /// transition in the same frame exited the sub-state's parent.
    SubRequestDroppedOnParentExit { requested: SubStateValue, current: AppState },
}

/// A transition callback occasion, reported in order by
/// [`StateGraph::apply_transitions`]: exits most-specific first, enters
/// least-specific first.
#[derive(Debug, PartialEq, Eq, Structural, Clone, Copy)]
pub enum StateEvent {
    Exited(Scope),
    Entered(Scope),
}

/// The state graph: current top-level value, current sub-state value (owned
/// only while its parent is current), and the buffered requests for the
/// current frame.
pub struct StateGraph {
    pub current: AppState,
    pub sub: Option<SubStateValue>,
    pub pending: Option<AppState>,
    pub pending_sub: Option<SubStateValue>,
    pub diagnostics: Vec<LogicError>,
}

/// The top-level value after this frame's buffered requests are applied:
/// the most recent buffered request wins.
pub open spec fn top_applied(g: StateGraph) -> AppState {
    match g.pending {
        Some(n) => n,
        None => g.current,
    }
}

/// The sub-state value right after the top-level transition (if any) is
/// applied: entering a parent re-initializes its machine to the default.
pub open spec fn sub_after_top(g: StateGraph) -> Option<SubStateValue> {
    if g.pending is Some {
        default_sub_of(top_applied(g))
    } else {
        g.sub
    }
}

/// Whether the buffered sub-state request is still valid at apply time.
pub open spec fn sub_request_valid(g: StateGraph) -> bool {
    match g.pending_sub {
        Some(ns) => parent_of(ns) == top_applied(g),
        None => false,
    }
}

/// The sub-state value after this frame's buffered requests are applied.
pub open spec fn sub_applied(g: StateGraph) -> Option<SubStateValue> {
    if sub_request_valid(g) {
        g.pending_sub
    } else {
        sub_after_top(g)
    }
}

/// The exit and enter events of the top-level transition, if one is buffered.
pub open spec fn top_events(g: StateGraph) -> Seq<StateEvent> {
    match g.pending {
        Some(n) => (match g.sub {
            Some(s) => seq![StateEvent::Exited(Scope::Sub(s))],
            None => seq![],
        }) + seq![
            StateEvent::Exited(Scope::Top(g.current)),
            StateEvent::Entered(Scope::Top(n)),
        ] + (match default_sub_of(n) {
            Some(d) => seq![StateEvent::Entered(Scope::Sub(d))],
            None => seq![],
        }),
        None => seq![],
    }
}

/// The exit and enter events of the sub-state transition, if one applies.
pub open spec fn sub_events(g: StateGraph) -> Seq<StateEvent> {
    if sub_request_valid(g) {
        match (sub_after_top(g), g.pending_sub) {
            (Some(s0), Some(ns)) => seq![
                StateEvent::Exited(Scope::Sub(s0)),
                StateEvent::Entered(Scope::Sub(ns)),
            ],
            _ => seq![],
        }
    } else {
        seq![]
    }
}

/// All transition events of one frame, in callback order.
pub open spec fn apply_events(g: StateGraph) -> Seq<StateEvent> {
    top_events(g) + sub_events(g)
}

/// The diagnostic recorded at apply time, if the buffered sub-state request
/// was invalidated by the same frame's top-level transition.
pub open spec fn apply_diagnostics(g: StateGraph) -> Seq<LogicError> {
    match g.pending_sub {
        Some(ns) => if parent_of(ns) == top_applied(g) {
            seq![]
        } else {
            seq![
                LogicError::SubRequestDroppedOnParentExit {
                    requested: ns,
                    current: top_applied(g),
                },
            ]
        },
        None => seq![],
    }
}

/// The registry contents after the purges of one frame's transitions: the
/// exited top-level scope is purged together with everything nested under
/// it, then the exited sub-state scope.
pub open spec fn entries_after_apply(g: StateGraph, entries: Seq<ObjectEntry>) -> Seq<
    ObjectEntry,
> {
    let after_top = if g.pending is Some {
        purge_result(entries, Scope::Top(g.current))
    } else {
        entries
    };
    if sub_request_valid(g) {
        match sub_after_top(g) {
            Some(s0) => purge_result(after_top, Scope::Sub(s0)),
            None => after_top,
        }
    } else {
        after_top
    }
}

impl StateGraph {
    /// The sub-state slot is owned exactly while the current top-level state
    /// declares a sub-state machine, and always belongs to the current state.
    pub open spec fn wf(&self) -> bool {
        &&& (self.sub is Some <==> default_sub_of(self.current) is Some)
        &&& match self.sub {
            Some(s) => parent_of(s) == self.current,
            None => true,
        }
    }

    pub fn new() -> (r: StateGraph)
        ensures
            r.wf(),
            r.current == AppState::AssetsLoading,
            r.sub is None,
            r.pending is None,
            r.pending_sub is None,
            r.diagnostics@ == Seq::<LogicError>::empty(),
    {
        StateGraph {
            current: AppState::AssetsLoading,
            sub: None,
            pending: None,
            pending_sub: None,
            diagnostics: Vec::new(),
        }
    }

    /// The current top-level state value.
    pub fn current(&self) -> (r: AppState)
        ensures
            r == self.current,
    {
        self.current
    }

    /// The current sub-state value, queryable only through its required
    /// parent: `None` whenever that parent is not current.
    pub fn current_sub(&self, parent_required: AppState) -> (r: Option<SubStateValue>)
        ensures
            r == (if parent_required == self.current {
                self.sub
            } else {
                None::<SubStateValue>
            }),
    {
        if self.current == parent_required {
            self.sub
        } else {
            None
        }
    }

    /// Buffer a top-level transition request. Requests are not applied
    /// immediately; a later request in the same frame replaces this one.
    pub fn request_transition(&mut self, next: AppState)
        ensures
            final(self).pending == Some(next),
            final(self).current == old(self).current,
            final(self).sub == old(self).sub,
            final(self).pending_sub == old(self).pending_sub,
            final(self).diagnostics@ == old(self).diagnostics@,
    {
        self.pending = Some(next);
    }

    /// Buffer a sub-state transition request. If the sub-state's required
    /// parent is not current, the request is dropped and a diagnostic is
    /// recorded: the current values are left untouched.
    pub fn request_sub_transition(&mut self, next: SubStateValue)
        ensures
            final(self).current == old(self).current,
            final(self).sub == old(self).sub,
            final(self).pending == old(self).pending,
            parent_of(next) == old(self).current ==> {
                &&& final(self).pending_sub == Some(next)
                &&& final(self).diagnostics@ == old(self).diagnostics@
            },
            parent_of(next) != old(self).current ==> {
                &&& final(self).pending_sub == old(self).pending_sub
                &&& final(self).diagnostics@ == old(self).diagnostics@.push(
                    LogicError::SubRequestParentNotCurrent {
                        requested: next,
                        current: old(self).current,
                    },
                )
            },
    {
        if parent_state(next) == self.current {
            self.pending_sub = Some(next);
        } else {
            self.diagnostics.push(
                LogicError::SubRequestParentNotCurrent { requested: next, current: self.current },
            );
        }
    }

    /// Apply this frame's buffered requests, at most one per machine, and
    /// purge the scoped registry for every exited value. Returns the
    /// transition events in callback order: exits most-specific first,
    /// enters least-specific first. A buffered request is always a
    /// transition, even back into the current value: its exit and enter
    /// actions run and its scopes are purged.
    pub fn apply_transitions(&mut self, registry: &mut ScopedRegistry) -> (events: Vec<
        StateEvent,
    >)
        requires
            old(self).wf(),
        ensures
            final(self).wf(),
            final(self).current == top_applied(*old(self)),
            final(self).sub == sub_applied(*old(self)),
            final(self).pending is None,
            final(self).pending_sub is None,
            final(self).diagnostics@ == old(self).diagnostics@ + apply_diagnostics(*old(self)),
            events@ == apply_events(*old(self)),
            final(registry).entries@ == entries_after_apply(*old(self), old(registry).entries@),
            final(registry).next_id == old(registry).next_id,
    {
        let ghost g0 = *self;
        let mut events: Vec<StateEvent> = Vec::new();
        if let Some(next) = self.pending {
            if let Some(s) = self.sub {
                events.push(StateEvent::Exited(Scope::Sub(s)));
            }
            events.push(StateEvent::Exited(Scope::Top(self.current)));
            registry.purge(Scope::Top(self.current));
            self.current = next;
            self.sub = default_sub(next);
            self.pending = None;
            events.push(StateEvent::Entered(Scope::Top(next)));
            if let Some(d) = self.sub {
                events.push(StateEvent::Entered(Scope::Sub(d)));
            }
        }
        assert(events@ =~= top_events(g0));
        assert(self.current == top_applied(g0));
        assert(self.sub == sub_after_top(g0));
        if let Some(ns) = self.pending_sub {
            self.pending_sub = None;
            if parent_state(ns) == self.current {
                if let Some(s0) = self.sub {
                    events.push(StateEvent::Exited(Scope::Sub(s0)));
                    registry.purge(Scope::Sub(s0));
                }
                self.sub = Some(ns);
                events.push(StateEvent::Entered(Scope::Sub(ns)));
            } else {
                self.diagnostics.push(
                    LogicError::SubRequestDroppedOnParentExit {
                        requested: ns,
                        current: self.current,
                    },
                );
            }
        }
        proof {
            assert(events@ =~= apply_events(g0));
            assert(self.diagnostics@ =~= g0.diagnostics@ + apply_diagnostics(g0));
        }
        events
    }
}

/// The plugin that installs the application's state machinery: builds the
/// state graph at its declared defaults.
pub struct AppStatePlugin;

impl AppStatePlugin {
    pub fn build(&self) -> (r: StateGraph)
        ensures
            r.wf(),
            r.current == AppState::AssetsLoading,
            r.sub is None,
            r.pending is None,
            r.pending_sub is None,
            r.diagnostics@ == Seq::<LogicError>::empty(),
    {
        StateGraph::new()
    }
}

/// Buffering a request replaces any earlier one.
pub open spec fn request_spec(g: StateGraph, next: AppState) -> StateGraph {
    StateGraph { pending: Some(next), ..g }
}

/// The graph after a whole sequence of requests is buffered, in order.
pub open spec fn request_all(g: StateGraph, reqs: Seq<AppState>) -> StateGraph
    decreases reqs.len(),
{
    if reqs.len() == 0 {
        g
    } else {
        request_all(request_spec(g, reqs.first()), reqs.drop_first())
    }
}

/// Last writer wins: for any sequence of transition requests buffered within
/// one frame, the top-level state after the frame's apply equals the last
/// request of that sequence, never an intermediate one.
pub proof fn lemma_last_request_wins(g: StateGraph, reqs: Seq<AppState>)
    requires
        reqs.len() > 0,
    ensures
        top_applied(request_all(g, reqs)) == reqs.last(),
    decreases reqs.len(),
{
    if reqs.len() == 1 {
        assert(request_all(g, reqs) == request_all(request_spec(g, reqs.first()), reqs.drop_first()));
        assert(reqs.drop_first().len() == 0);
    } else {
        lemma_last_request_wins(request_spec(g, reqs.first()), reqs.drop_first());
        assert(reqs.drop_first().last() == reqs.last());
    }
}

} // verus!
