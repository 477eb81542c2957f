use boss_rush::rational::Q;
use boss_rush::scheduler::FixedStepScheduler;

// Ticks of 1/120 s: a fixed delta of 2 ticks is 1/60 s.

#[test]
fn slow_frame_runs_two_fixed_steps_with_zero_overstep() {
    let mut scheduler = FixedStepScheduler::new(2);
    // A render frame of 1/30 s against a fixed delta of 1/60 s.
    let steps = scheduler.advance(4);
    assert_eq!(steps, 2);
    assert!(scheduler.overstep_fraction().eq_q(&Q::zero()));
}

#[test]
fn fast_frame_runs_zero_steps_and_keeps_the_accumulator() {
    let mut scheduler = FixedStepScheduler::new(2);
    let steps = scheduler.advance(1);
    assert_eq!(steps, 0);
    assert!(scheduler.overstep_fraction().eq_q(&Q::new(1, 2)));
    // The remainder is never discarded: the next fast frame completes a step.
    let steps = scheduler.advance(1);
    assert_eq!(steps, 1);
    assert!(scheduler.overstep_fraction().eq_q(&Q::zero()));
}

#[test]
fn long_stall_catches_up_unbounded() {
    let mut scheduler = FixedStepScheduler::new(2);
    let steps = scheduler.advance(21);
    assert_eq!(steps, 10);
    assert!(scheduler.overstep_fraction().eq_q(&Q::new(1, 2)));
}

#[test]
fn overstep_fraction_stays_below_one() {
    let mut scheduler = FixedStepScheduler::new(60);
    scheduler.advance(59);
    let f = scheduler.overstep_fraction();
    assert!(f.lt(&Q::one()));
    assert!(Q::zero().le(&f));
}
