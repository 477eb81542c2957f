//! Asset loading registration and the loading gate.
//!
//! The core never inspects a loaded resource: it only tracks each requested
//! item's identity in the progress tracker and gates the transition out of
//! the loading state on the tracker's one-shot completion latch.

use vstd::prelude::*;
use crate::progress::{spec_tracked, LoadStatus, ProgressTracker, TrackedItem};
use crate::state::{AppState, StateGraph};

verus! {

/// Handles of the example gameplay images.
#[derive(Debug, PartialEq, Eq, Structural, Clone, Copy)]
pub struct ExampleAssets {
    pub tree: u64,
    pub player: u64,
}

/// Handles of the UI font and the cursor images.
#[derive(Debug, Clone)]
pub struct UiAssets {
    pub font: u64,
    pub cursors: Vec<u64>,
}

/// The plugin that installs asset tracking and the loading gate.
pub struct AssetsLoadingPlugin;

/// A pending item for the given handle.
pub open spec fn pending_item(id: u64) -> TrackedItem {
    TrackedItem { id, status: LoadStatus::Pending }
}

/// Track the example gameplay images before their loads are issued. The
/// handles come from the asset collaborator and must be fresh and distinct.
pub fn load_example_assets(tracker: &mut ProgressTracker, tree: u64, player: u64) -> (r:
    ExampleAssets)
    requires
        old(tracker).wf(),
        old(tracker).items@.len() + 2 <= u32::MAX,
        tree != player,
        !spec_tracked(old(tracker).items@, tree),
        !spec_tracked(old(tracker).items@, player),
    ensures
        final(tracker).wf(),
        final(tracker).items@ == old(tracker).items@.push(pending_item(tree)).push(
            pending_item(player),
        ),
        final(tracker).pending == old(tracker).pending + 2,
        final(tracker).ready == old(tracker).ready,
        final(tracker).failed == old(tracker).failed,
        final(tracker).gate_fired == old(tracker).gate_fired,
        r == (ExampleAssets { tree, player }),
{
    let ghost items0 = tracker.items@;
    let fresh_tree = tracker.track(tree);
    proof {
        assert(fresh_tree);
        assert(!spec_tracked(tracker.items@, player)) by {
            assert(forall|i: int|
                0 <= i < items0.len() ==> (#[trigger] items0[i]).id != player);
            assert(tracker.items@ == items0.push(pending_item(tree)));
        }
    }
    let fresh_player = tracker.track(player);
    proof {
        assert(fresh_player);
    }
    ExampleAssets { tree, player }
}

/// Track the UI font and the four cursor images before their loads are
/// issued. The handles come from the asset collaborator and must be fresh
/// and distinct.
pub fn load_ui_assets(
    tracker: &mut ProgressTracker,
    font: u64,
    cursor_1: u64,
    cursor_2: u64,
    cursor_3: u64,
    cursor_4: u64,
) -> (r: UiAssets)
    requires
        old(tracker).wf(),
        old(tracker).items@.len() + 5 <= u32::MAX,
        font != cursor_1 && font != cursor_2 && font != cursor_3 && font != cursor_4,
        cursor_1 != cursor_2 && cursor_1 != cursor_3 && cursor_1 != cursor_4,
        cursor_2 != cursor_3 && cursor_2 != cursor_4,
        cursor_3 != cursor_4,
        !spec_tracked(old(tracker).items@, font),
        !spec_tracked(old(tracker).items@, cursor_1),
        !spec_tracked(old(tracker).items@, cursor_2),
        !spec_tracked(old(tracker).items@, cursor_3),
        !spec_tracked(old(tracker).items@, cursor_4),
    ensures
        final(tracker).wf(),
        final(tracker).items@ == old(tracker).items@.push(pending_item(font)).push(
            pending_item(cursor_1),
        ).push(pending_item(cursor_2)).push(pending_item(cursor_3)).push(pending_item(cursor_4)),
        final(tracker).pending == old(tracker).pending + 5,
        final(tracker).ready == old(tracker).ready,
        final(tracker).failed == old(tracker).failed,
        final(tracker).gate_fired == old(tracker).gate_fired,
        r.font == font,
        r.cursors@ == seq![cursor_1, cursor_2, cursor_3, cursor_4],
{
    let ghost items0 = tracker.items@;
    proof {
        assert(forall|i: int| 0 <= i < items0.len() ==> (#[trigger] items0[i]).id != font);
        assert(forall|i: int| 0 <= i < items0.len() ==> (#[trigger] items0[i]).id != cursor_1);
        assert(forall|i: int| 0 <= i < items0.len() ==> (#[trigger] items0[i]).id != cursor_2);
        assert(forall|i: int| 0 <= i < items0.len() ==> (#[trigger] items0[i]).id != cursor_3);
        assert(forall|i: int| 0 <= i < items0.len() ==> (#[trigger] items0[i]).id != cursor_4);
    }
    let f0 = tracker.track(font);
    let f1 = tracker.track(cursor_1);
    let f2 = tracker.track(cursor_2);
    let f3 = tracker.track(cursor_3);
    let f4 = tracker.track(cursor_4);
    proof {
        assert(f0 && f1 && f2 && f3 && f4);
    }
    let mut cursors: Vec<u64> = Vec::new();
    cursors.push(cursor_1);
    cursors.push(cursor_2);
    cursors.push(cursor_3);
    cursors.push(cursor_4);
    proof {
        assert(cursors@ =~= seq![cursor_1, cursor_2, cursor_3, cursor_4]);
    }
    UiAssets { font, cursors }
}

/// The cursor image installed on the window when loading finishes: the
/// first cursor. Installing it is the windowing collaborator's job.
pub fn add_cursor(ui: &UiAssets) -> (r: u64)
    requires
        ui.cursors@.len() > 0,
    ensures
        r == ui.cursors@[0],
{
    ui.cursors[0]
}

impl AssetsLoadingPlugin {
    /// Poll the loading gate once per frame: on the frame the last tracked
    /// item resolves — and on no other — request the transition from the
    /// loading state to the main menu.
    pub fn check_loading_gate(&self, tracker: &mut ProgressTracker, graph: &mut StateGraph) -> (
        fired: bool)
        ensures
            fired == crate::progress::gate_fires(*old(tracker)),
            final(tracker).items@ == old(tracker).items@,
            final(tracker).pending == old(tracker).pending,
            final(tracker).ready == old(tracker).ready,
            final(tracker).failed == old(tracker).failed,
            final(tracker).gate_fired == (old(tracker).gate_fired || old(tracker).pending == 0),
            fired ==> final(graph).pending == Some(AppState::MainMenu),
            !fired ==> final(graph).pending == old(graph).pending,
            final(graph).current == old(graph).current,
            final(graph).sub == old(graph).sub,
            final(graph).pending_sub == old(graph).pending_sub,
            final(graph).diagnostics@ == old(graph).diagnostics@,
    {
        let fired = tracker.poll_gate();
        if fired {
            graph.request_transition(AppState::MainMenu);
        }
        fired
    }
}

} // verus!
