//! Control core of an interactive real-time application.
//!
//! The library decides which screen or mode is active (a hierarchical state
//! machine with buffered transitions), which live objects belong to which
//! mode (a scope-tagged registry purged on state exit), how loading progress
//! gates the first transition (a one-shot latch over a pending/ready/failed
//! counter), and how simulated motion advances at a fixed timestep
//! independently of the render frame rate (an accumulator scheduler plus a
//! motion model interpolated for display with the overstep fraction).
//!
//! All continuous quantities — velocities, positions, damping factors,
//! fractions — are exact rational numbers, so every contract states the
//! result of a computation exactly.

pub mod assets;
pub mod element;
pub mod enemy;
pub mod game;
pub mod game_over;
pub mod loading;
pub mod main_menu;
pub mod motion;
pub mod pause;
pub mod player;
pub mod progress;
pub mod rational;
pub mod registry;
pub mod scheduler;
pub mod settings;
pub mod state;
pub mod ui;
pub mod utils;

use vstd::prelude::*;
use crate::motion::{steps_fit, steps_spec, Mover, MoverModel, MovementStrategy, Vec2,
    MAX_INPUT_ACCUM};
use crate::rational::{rat_lerp, rat_lerp_fits, Q, Rat};
use crate::scheduler::FixedStepScheduler;

verus! {

/// A motion model with one render frame's raw input added to its
/// accumulator.
pub open spec fn accum_model(m: MoverModel, dx: int, dy: int) -> MoverModel {
    MoverModel { input_x: m.input_x + dx, input_y: m.input_y + dy, ..m }
}

/// The number of fixed steps one render frame runs: the whole fixed deltas
/// accumulated after the frame's delta is added.
pub open spec fn spec_frame_steps(s: FixedStepScheduler, frame_delta: u64) -> int {
    (s.accumulator + frame_delta) / s.delta as int
}

/// The overstep fraction left after one render frame.
pub open spec fn spec_frame_overstep(s: FixedStepScheduler, frame_delta: u64) -> Rat {
    Rat { n: (s.accumulator + frame_delta) % s.delta as int, d: s.delta as int }
}

/// One whole render frame of the simulation, in the order the control flow
/// prescribes: accumulate the frame's raw input, add the frame's delta to
/// the fixed-step accumulator, run every fixed step that has become due
/// (zero on a fast frame, several on a slow one), then interpolate the
/// rendered transform between the previous and current physical position by
/// the remaining overstep fraction. Returns the number of fixed steps run
/// and the rendered transform.
pub fn advance_render_frame(
    scheduler: &mut FixedStepScheduler,
    mover: &mut Mover,
    input_x: i64,
    input_y: i64,
    frame_delta: u64,
    dt: &Q,
) -> (r: (u64, Vec2))
    requires
        old(scheduler).wf(),
        old(scheduler).delta <= i64::MAX,
        old(scheduler).accumulator + frame_delta <= u64::MAX,
        old(mover).wf(),
        old(mover).strategy == MovementStrategy::FixedAccumulated,
        dt.wf(),
        -MAX_INPUT_ACCUM <= old(mover).input_x + input_x <= MAX_INPUT_ACCUM,
        -MAX_INPUT_ACCUM <= old(mover).input_y + input_y <= MAX_INPUT_ACCUM,
        steps_fit(
            accum_model(old(mover)@, input_x as int, input_y as int),
            dt@,
            spec_frame_steps(*old(scheduler), frame_delta) as nat,
        ),
        ({
            let m = steps_spec(
                accum_model(old(mover)@, input_x as int, input_y as int),
                dt@,
                spec_frame_steps(*old(scheduler), frame_delta) as nat,
            );
            let t = spec_frame_overstep(*old(scheduler), frame_delta);
            rat_lerp_fits(m.previous.x, m.physical.x, t) && rat_lerp_fits(
                m.previous.y,
                m.physical.y,
                t,
            )
        }),
    ensures
        final(scheduler).wf(),
        final(scheduler).delta == old(scheduler).delta,
        final(scheduler).accumulator == (old(scheduler).accumulator + frame_delta) % old(
            scheduler,
        ).delta as int,
        r.0 == spec_frame_steps(*old(scheduler), frame_delta),
        final(mover).wf(),
        final(mover).strategy == old(mover).strategy,
        final(mover)@ == steps_spec(
            accum_model(old(mover)@, input_x as int, input_y as int),
            dt@,
            r.0 as nat,
        ),
        r.1.wf(),
        r.1@.x == rat_lerp(
            final(mover)@.previous.x,
            final(mover)@.physical.x,
            spec_frame_overstep(*old(scheduler), frame_delta),
        ),
        r.1@.y == rat_lerp(
            final(mover)@.previous.y,
            final(mover)@.physical.y,
            spec_frame_overstep(*old(scheduler), frame_delta),
        ),
{
    mover.accumulate_input(input_x, input_y);
    let ghost m1 = mover@;
    let ghost n_total = spec_frame_steps(*scheduler, frame_delta) as nat;
    let steps = scheduler.advance(frame_delta);
    let mut k: u64 = 0;
    proof {
        assert(mover@ == steps_spec(m1, dt@, 0nat));
    }
    while k < steps
        invariant
            0 <= k <= steps,
            steps == n_total,
            dt.wf(),
            mover.wf(),
            mover.strategy == MovementStrategy::FixedAccumulated,
            mover@ == steps_spec(m1, dt@, k as nat),
            steps_fit(mover@, dt@, (n_total - k) as nat),
        decreases steps - k,
    {
        proof {
            assert(steps_fit(mover@, dt@, (n_total - k) as nat));
            assert((n_total - k) as nat != 0);
        }
        mover.fixed_step(dt);
        k = k + 1;
        proof {
            assert(mover@ == steps_spec(m1, dt@, k as nat));
        }
    }
    let overstep = scheduler.overstep_fraction();
    let rendered = mover.interpolated(&overstep);
    (steps, rendered)
}

} // verus!
