use boss_rush::advance_render_frame;
use boss_rush::motion::{Mover, MovementBundle, MovementStrategy, Vec2};
use boss_rush::rational::Q;
use boss_rush::scheduler::FixedStepScheduler;

// Ticks of 1/120 s: a fixed delta of 2 ticks is 1/60 s. The motion model's
// exact fractions must stay within `i64` numerators and denominators, so
// these scenarios use movement constants with small denominators.

fn mover_with_velocity(vx: i64) -> Mover {
    let bundle = MovementBundle::new(Q::new(2, 1), Q::new(1, 2));
    let mut mover = Mover::new(Vec2::zero(), bundle, MovementStrategy::FixedAccumulated);
    mover.velocity = Vec2::new(Q::new(vx, 1), Q::zero());
    mover
}

const DT: (i64, i64) = (1, 2);

#[test]
fn render_frame_of_double_delta_runs_exactly_two_steps() {
    let mut scheduler = FixedStepScheduler::new(2);
    let mut mover = mover_with_velocity(8);
    let dt = Q::new(DT.0, DT.1);
    // A render frame of 1/30 s against a fixed delta of 1/60 s: exactly two
    // fixed steps run before this frame's interpolation.
    let (steps, rendered) = advance_render_frame(&mut scheduler, &mut mover, 0, 0, 4, &dt);
    assert_eq!(steps, 2);
    // Overstep is exactly zero, so the rendered transform equals Previous.
    assert!(scheduler.overstep_fraction().eq_q(&Q::zero()));
    assert!(rendered.x.eq_q(&mover.previous.x));
    // Two damped steps: velocity 8 * (1/2)^2, positions 2 then 3.
    assert!(mover.velocity.x.eq_q(&Q::new(2, 1)));
    assert!(mover.previous.x.eq_q(&Q::new(2, 1)));
    assert!(mover.physical.x.eq_q(&Q::new(3, 1)));
}

#[test]
fn render_frame_with_half_overstep_interpolates_midway() {
    let mut scheduler = FixedStepScheduler::new(2);
    let mut mover = mover_with_velocity(8);
    let dt = Q::new(DT.0, DT.1);
    let (steps, rendered) = advance_render_frame(&mut scheduler, &mut mover, 0, 0, 3, &dt);
    assert_eq!(steps, 1);
    assert!(scheduler.overstep_fraction().eq_q(&Q::new(1, 2)));
    // One step: velocity 4, physical 2, previous 0.
    assert!(mover.physical.x.eq_q(&Q::new(2, 1)));
    assert!(mover.previous.x.eq_q(&Q::zero()));
    // Rendered == lerp(0, 2, 1/2) == 1.
    assert!(rendered.x.eq_q(&Q::new(1, 1)));
}

#[test]
fn fast_render_frame_runs_no_step_and_input_stays_accumulated() {
    let mut scheduler = FixedStepScheduler::new(2);
    let mut mover = mover_with_velocity(0);
    let dt = Q::new(DT.0, DT.1);
    let (steps, rendered) = advance_render_frame(&mut scheduler, &mut mover, 5, 7, 1, &dt);
    assert_eq!(steps, 0);
    assert_eq!((mover.input_x, mover.input_y), (5, 7));
    assert!(rendered.x.eq_q(&Q::zero()));
    // The next frame completes the step and consumes the input.
    let (steps, _) = advance_render_frame(&mut scheduler, &mut mover, 0, 0, 1, &dt);
    assert_eq!(steps, 1);
    assert_eq!((mover.input_x, mover.input_y), (0, 0));
    assert!(!mover.velocity.x.eq_q(&Q::zero()));
}
