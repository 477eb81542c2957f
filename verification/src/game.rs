//! In-game world setup and sprite animation.

use vstd::prelude::*;
use crate::registry::{ObjectEntry, ScopedRegistry};
use crate::state::{AppState, Scope};

verus! {

/// The plugin that installs the game world under its bound state.
pub struct GamePlugin {
    pub state: AppState,
}

/// The frame range of a sprite sheet animation.
#[derive(Debug, PartialEq, Eq, Structural, Clone, Copy)]
pub struct AnimationIndices {
    pub first: usize,
    pub last: usize,
}

/// A repeating timer, in milliseconds: fires every `period_millis`, keeping
/// the remainder.
#[derive(Debug, PartialEq, Eq, Structural, Clone, Copy)]
pub struct AnimationTimer {
    pub elapsed_millis: u64,
    pub period_millis: u64,
}

impl AnimationTimer {
    pub open spec fn wf(&self) -> bool {
        self.period_millis > 0 && self.elapsed_millis < self.period_millis
    }
}

/// The persistent fixtures of the game world, scoped to the in-game state.
#[derive(Debug, PartialEq, Eq, Structural, Clone, Copy)]
pub struct GameSetup {
    pub camera: u64,
    pub ambient_light: u64,
}

/// Spawn the game camera and the ambient light.
pub fn setup_game(registry: &mut ScopedRegistry) -> (setup: GameSetup)
    requires
        old(registry).next_id + 2 <= u64::MAX,
    ensures
        final(registry).next_id == old(registry).next_id + 2,
        final(registry).entries@ == old(registry).entries@.push(
            ObjectEntry { id: setup.camera, scope: Some(Scope::Top(AppState::InGame)) },
        ).push(ObjectEntry { id: setup.ambient_light, scope: Some(Scope::Top(AppState::InGame)) }),
        setup.camera == old(registry).next_id,
        setup.ambient_light == old(registry).next_id + 1,
{
    let camera = registry.register(Some(Scope::Top(AppState::InGame)));
    let ambient_light = registry.register(Some(Scope::Top(AppState::InGame)));
    GameSetup { camera, ambient_light }
}

/// An animated scenery object.
#[derive(Debug, PartialEq, Eq, Structural, Clone, Copy)]
pub struct TreeObject {
    pub id: u64,
    pub indices: AnimationIndices,
    pub timer: AnimationTimer,
    pub atlas_index: usize,
}

/// Spawn the example tree: a static animated sprite cycling through sixteen
/// frames, a tenth of a second each, scoped to the in-game state.
pub fn spawn_example_tree(registry: &mut ScopedRegistry) -> (tree: TreeObject)
    requires
        old(registry).next_id < u64::MAX,
    ensures
        final(registry).next_id == old(registry).next_id + 1,
        final(registry).entries@ == old(registry).entries@.push(
            ObjectEntry { id: tree.id, scope: Some(Scope::Top(AppState::InGame)) },
        ),
        tree.id == old(registry).next_id,
        tree.indices == (AnimationIndices { first: 0usize, last: 15usize }),
        tree.timer == (AnimationTimer { elapsed_millis: 0u64, period_millis: 100u64 }),
        tree.atlas_index == 0,
{
    let id = registry.register(Some(Scope::Top(AppState::InGame)));
    TreeObject {
        id,
        indices: AnimationIndices { first: 0, last: 15 },
        timer: AnimationTimer { elapsed_millis: 0, period_millis: 100 },
        atlas_index: 0,
    }
}

/// The next frame of a cycling animation: one forward, wrapping from the
/// last frame back to the first.
pub open spec fn spec_next_frame(indices: AnimationIndices, index: usize) -> usize {
    if index == indices.last {
        indices.first
    } else {
        (index + 1) as usize
    }
}

/// Advance a sprite's animation by one render frame's delta: when the
/// repeating timer fires, step to the next frame, wrapping at the range's
/// end. The timer keeps the remainder; one render frame advances at most one
/// animation frame.
pub fn animate_sprite(
    indices: &AnimationIndices,
    timer: &mut AnimationTimer,
    atlas_index: &mut usize,
    delta_millis: u64,
)
    requires
        old(timer).wf(),
        old(timer).elapsed_millis + delta_millis <= u64::MAX,
        indices.first <= *old(atlas_index) <= indices.last,
        indices.last < usize::MAX,
    ensures
        final(timer).wf(),
        final(timer).period_millis == old(timer).period_millis,
        old(timer).elapsed_millis + delta_millis < old(timer).period_millis ==> {
            &&& final(timer).elapsed_millis == old(timer).elapsed_millis + delta_millis
            &&& *final(atlas_index) == *old(atlas_index)
        },
        old(timer).elapsed_millis + delta_millis >= old(timer).period_millis ==> {
            &&& final(timer).elapsed_millis == (old(timer).elapsed_millis + delta_millis) % old(
                timer,
            ).period_millis as int
            &&& *final(atlas_index) == spec_next_frame(*indices, *old(atlas_index))
        },
        indices.first <= *final(atlas_index) <= indices.last,
{
    let total = timer.elapsed_millis + delta_millis;
    if total >= timer.period_millis {
        timer.elapsed_millis = total % timer.period_millis;
        if *atlas_index == indices.last {
            *atlas_index = indices.first;
        } else {
            *atlas_index = *atlas_index + 1;
        }
    } else {
        timer.elapsed_millis = total;
    }
}

} // verus!
