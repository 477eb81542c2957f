//! The player entity and its actions.

use vstd::prelude::*;
use crate::motion::{
    dir_spec, CharacterControllerBundle, Mover, MovementStrategy, Vec2, MAX_INPUT_ACCUM,
};
use crate::rational::{rat_add, rat_add_fits, rat_mul, rat_mul_fits, rat_zero, Q, Rat};
use crate::registry::{ObjectEntry, ScopedRegistry};
use crate::state::{AppState, Scope};

verus! {

/// The plugin that installs the player.
pub struct PlayerPlugin;

/// An action the player can take.
#[derive(Debug, PartialEq, Eq, Structural, Clone, Copy, Hash)]
pub enum PlayerAction {
    Move,
    Dash,
    Attack,
}

/// The one-shot actions the player triggered this frame.
#[derive(Debug, PartialEq, Eq, Structural, Clone, Copy)]
pub struct PlayerEvents {
    pub dash: bool,
    pub attack: bool,
}

/// The player's live object and motion state.
#[derive(Clone, Copy, Debug)]
pub struct PlayerObject {
    pub id: u64,
    pub mover: Mover,
}

/// Spawn the player, scoped to the in-game state: at rest at `(500, 0)`,
/// acceleration 1250, damping 92/100, driven directly by its per-frame
/// actions.
pub fn spawn_player(registry: &mut ScopedRegistry) -> (player: PlayerObject)
    requires
        old(registry).next_id < u64::MAX,
    ensures
        final(registry).next_id == old(registry).next_id + 1,
        final(registry).entries@ == old(registry).entries@.push(
            ObjectEntry { id: player.id, scope: Some(Scope::Top(AppState::InGame)) },
        ),
        player.id == old(registry).next_id,
        player.mover.wf(),
        player.mover@.velocity.x == rat_zero(),
        player.mover@.velocity.y == rat_zero(),
        player.mover@.physical.x == (Rat { n: 500, d: 1 }),
        player.mover@.physical.y == (Rat { n: 0, d: 1 }),
        player.mover@.previous == player.mover@.physical,
        player.mover@.input_x == 0,
        player.mover@.input_y == 0,
        player.mover@.acceleration == (Rat { n: 1250, d: 1 }),
        player.mover@.damping == (Rat { n: 92, d: 100 }),
        player.mover.strategy == MovementStrategy::DirectVelocity,
{
    let id = registry.register(Some(Scope::Top(AppState::InGame)));
    let bundle = CharacterControllerBundle::new().with_movement(Q::new(1250, 1), Q::new(92, 100));
    let start = Vec2::new(Q::new(500, 1), Q::new(0, 1));
    let mover = Mover::new(start, bundle.movement, MovementStrategy::DirectVelocity);
    PlayerObject { id, mover }
}

/// Apply the player's sampled actions for one render frame: a nonzero move
/// axis is normalized to a unit-or-shorter direction and accelerates the
/// player for this frame's delta; dash and attack are handed on as one-shot
/// events.
pub fn use_actions(
    mover: &mut Mover,
    axis_x: i64,
    axis_y: i64,
    dt: &Q,
    dash_pressed: bool,
    attack_pressed: bool,
) -> (events: PlayerEvents)
    requires
        old(mover).wf(),
        old(mover).strategy == MovementStrategy::DirectVelocity,
        dt.wf(),
        -MAX_INPUT_ACCUM <= axis_x <= MAX_INPUT_ACCUM,
        -MAX_INPUT_ACCUM <= axis_y <= MAX_INPUT_ACCUM,
        rat_mul_fits(old(mover)@.acceleration, dt@),
        rat_mul_fits(
            dir_spec(axis_x as int, axis_y as int).x,
            rat_mul(old(mover)@.acceleration, dt@),
        ),
        rat_mul_fits(
            dir_spec(axis_x as int, axis_y as int).y,
            rat_mul(old(mover)@.acceleration, dt@),
        ),
        rat_add_fits(
            old(mover)@.velocity.x,
            rat_mul(dir_spec(axis_x as int, axis_y as int).x, rat_mul(old(mover)@.acceleration, dt@)),
        ),
        rat_add_fits(
            old(mover)@.velocity.y,
            rat_mul(dir_spec(axis_x as int, axis_y as int).y, rat_mul(old(mover)@.acceleration, dt@)),
        ),
    ensures
        final(mover).wf(),
        events == (PlayerEvents { dash: dash_pressed, attack: attack_pressed }),
        (axis_x == 0 && axis_y == 0) ==> final(mover).velocity == old(mover).velocity,
        !(axis_x == 0 && axis_y == 0) ==> {
            &&& final(mover)@.velocity.x == rat_add(
                old(mover)@.velocity.x,
                rat_mul(
                    dir_spec(axis_x as int, axis_y as int).x,
                    rat_mul(old(mover)@.acceleration, dt@),
                ),
            )
            &&& final(mover)@.velocity.y == rat_add(
                old(mover)@.velocity.y,
                rat_mul(
                    dir_spec(axis_x as int, axis_y as int).y,
                    rat_mul(old(mover)@.acceleration, dt@),
                ),
            )
        },
        final(mover).physical == old(mover).physical,
        final(mover).previous == old(mover).previous,
        final(mover).input_x == old(mover).input_x,
        final(mover).input_y == old(mover).input_y,
        final(mover).bundle == old(mover).bundle,
        final(mover).strategy == old(mover).strategy,
{
    if !(axis_x == 0 && axis_y == 0) {
        let dir = crate::motion::normalize_input(axis_x, axis_y);
        let ad = mover.bundle.acceleration.0.mul(dt);
        mover.velocity = Vec2 {
            x: mover.velocity.x.add(&dir.x.mul(&ad)),
            y: mover.velocity.y.add(&dir.y.mul(&ad)),
        };
    }
    PlayerEvents { dash: dash_pressed, attack: attack_pressed }
}

} // verus!
