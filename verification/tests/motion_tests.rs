use boss_rush::motion::{
    facing_from_input, frame_index, keyboard_input, normalize_input, sqrt_ceil, Facing, Mover,
    MovementAction, MovementBundle, MovementStrategy, Vec2,
};
use boss_rush::rational::Q;

fn fixed_mover() -> Mover {
    let bundle = MovementBundle::new(Q::new(30, 1), Q::new(9, 10));
    Mover::new(Vec2::zero(), bundle, MovementStrategy::FixedAccumulated)
}

#[test]
fn velocity_decays_by_damping_power_under_zero_input() {
    let mut mover = fixed_mover();
    mover.velocity = Vec2::new(Q::new(100, 1), Q::zero());
    let dt = Q::new(1, 60);
    for _ in 0..3 {
        mover.fixed_step(&dt);
    }
    // 100 * (9/10)^3 == 729/10
    assert!(mover.velocity.x.eq_q(&Q::new(729, 10)));
    assert!(mover.velocity.y.eq_q(&Q::zero()));
}

#[test]
fn nonzero_velocity_never_reaches_exactly_zero() {
    let mut mover = fixed_mover();
    mover.velocity = Vec2::new(Q::new(1, 1), Q::zero());
    let dt = Q::new(1, 60);
    for _ in 0..10 {
        mover.fixed_step(&dt);
        assert!(!mover.velocity.x.eq_q(&Q::zero()));
    }
}

#[test]
fn fixed_step_consumes_and_resets_accumulated_input() {
    let mut mover = fixed_mover();
    let dt = Q::new(1, 60);
    mover.accumulate_input(3, 0);
    mover.accumulate_input(0, 4);
    assert_eq!((mover.input_x, mover.input_y), (3, 4));
    mover.fixed_step(&dt);
    assert_eq!((mover.input_x, mover.input_y), (0, 0));
    // direction (3/5, 4/5), times accel*dt == 30/60, then damping 9/10:
    // vx == (3/5)*(1/2)*(9/10) == 27/100, vy == (4/5)*(1/2)*(9/10) == 9/25.
    assert!(mover.velocity.x.eq_q(&Q::new(27, 100)));
    assert!(mover.velocity.y.eq_q(&Q::new(9, 25)));
    // previous snapshots the old physical position before integration.
    assert!(mover.previous.x.eq_q(&Q::zero()));
    assert!(mover.physical.x.eq_q(&Q::new(27, 6000)));
}

#[test]
fn interpolation_matches_overstep_fraction() {
    let mut mover = fixed_mover();
    mover.previous = Vec2::new(Q::zero(), Q::zero());
    mover.physical = Vec2::new(Q::new(10, 1), Q::zero());
    let half = mover.interpolated(&Q::new(1, 2));
    assert!(half.x.eq_q(&Q::new(5, 1)));
    assert!(half.y.eq_q(&Q::zero()));
    let at_zero = mover.interpolated(&Q::zero());
    assert!(at_zero.x.eq_q(&Q::zero()));
    let near_one = mover.interpolated(&Q::new(99, 100));
    assert!(near_one.x.eq_q(&Q::new(99, 10)));
    assert!(!near_one.x.eq_q(&Q::new(10, 1)));
}

#[test]
fn normalization_divides_by_ceiling_root() {
    let dir = normalize_input(3, 4);
    assert!(dir.x.eq_q(&Q::new(3, 5)));
    assert!(dir.y.eq_q(&Q::new(4, 5)));
    let zero = normalize_input(0, 0);
    assert!(zero.x.eq_q(&Q::zero()));
    assert!(zero.y.eq_q(&Q::zero()));
}

#[test]
fn diagonal_input_is_not_faster_than_axis_aligned() {
    let dir = normalize_input(1, 1);
    // ceiling root of 2 is 2: each component is 1/2, squared length 1/2.
    assert!(dir.x.eq_q(&Q::new(1, 2)));
    let len_sq = dir.x.mul(&dir.x).add(&dir.y.mul(&dir.y));
    assert!(len_sq.le(&Q::one()));
}

#[test]
fn ceiling_square_root_values() {
    assert_eq!(sqrt_ceil(0), 0);
    assert_eq!(sqrt_ceil(1), 1);
    assert_eq!(sqrt_ceil(2), 2);
    assert_eq!(sqrt_ceil(4), 2);
    assert_eq!(sqrt_ceil(5), 3);
    assert_eq!(sqrt_ceil(25), 5);
    assert_eq!(sqrt_ceil(26), 6);
}

#[test]
fn facing_follows_dominant_axis() {
    assert_eq!(facing_from_input(0, 0), None);
    assert_eq!(facing_from_input(0, 2), Some(Facing::Up));
    assert_eq!(facing_from_input(1, -2), Some(Facing::Down));
    assert_eq!(facing_from_input(3, 0), Some(Facing::Right));
    assert_eq!(facing_from_input(-3, -1), Some(Facing::Left));
    // Ties go to the vertical axis.
    assert_eq!(facing_from_input(2, 2), Some(Facing::Up));
    assert_eq!(facing_from_input(-2, -2), Some(Facing::Down));
    assert_eq!(frame_index(Facing::Left), 20);
    assert_eq!(frame_index(Facing::Down), 21);
    assert_eq!(frame_index(Facing::Up), 22);
    assert_eq!(frame_index(Facing::Right), 23);
}

#[test]
fn keyboard_input_builds_direction_from_pressed_keys() {
    assert_eq!(keyboard_input(false, false, false, false), None);
    assert_eq!(keyboard_input(true, false, false, false), Some(MovementAction::Move(-1, 0)));
    assert_eq!(keyboard_input(false, true, true, false), Some(MovementAction::Move(1, 1)));
    assert_eq!(keyboard_input(true, true, false, true), Some(MovementAction::Move(0, -1)));
}

#[test]
fn movement_action_accelerates_and_picks_facing() {
    let bundle = MovementBundle::new(Q::new(30, 1), Q::new(9, 10));
    let mut mover = Mover::new(Vec2::zero(), bundle, MovementStrategy::DirectVelocity);
    let dt = Q::new(1, 60);
    let facing = mover.movement(&MovementAction::Move(1, 0), &dt);
    assert_eq!(facing, Some(Facing::Right));
    assert!(mover.velocity.x.eq_q(&Q::new(1, 2)));
    assert!(mover.velocity.y.eq_q(&Q::zero()));
    mover.apply_movement_damping();
    assert!(mover.velocity.x.eq_q(&Q::new(9, 20)));
}

#[test]
fn movement_action_normalizes_diagonal_input() {
    let bundle = MovementBundle::new(Q::new(30, 1), Q::new(9, 10));
    let mut mover = Mover::new(Vec2::zero(), bundle, MovementStrategy::DirectVelocity);
    let dt = Q::new(1, 60);
    let facing = mover.movement(&MovementAction::Move(1, 1), &dt);
    assert_eq!(facing, Some(Facing::Up));
    // The diagonal is normalized by the ceiling root of 2: each axis gets
    // (1/2) * 30 * (1/60) == 1/4, not the raw 1/2, so diagonal input is not
    // faster than axis-aligned input.
    assert!(mover.velocity.x.eq_q(&Q::new(1, 4)));
    assert!(mover.velocity.y.eq_q(&Q::new(1, 4)));
    assert!(!mover.velocity.x.eq_q(&Q::new(1, 2)));
    // A zero action leaves the velocity untouched.
    let facing = mover.movement(&MovementAction::Move(0, 0), &dt);
    assert_eq!(facing, None);
    assert!(mover.velocity.x.eq_q(&Q::new(1, 4)));
}

#[test]
fn damping_alone_shrinks_velocity_but_never_zeroes_it() {
    let bundle = MovementBundle::new(Q::new(30, 1), Q::new(9, 10));
    let mut mover = Mover::new(Vec2::zero(), bundle, MovementStrategy::DirectVelocity);
    mover.velocity = Vec2::new(Q::one(), Q::zero());
    let mut last = mover.velocity.x;
    for _ in 0..10 {
        mover.apply_movement_damping();
        assert!(mover.velocity.x.lt(&last));
        assert!(!mover.velocity.x.eq_q(&Q::zero()));
        last = mover.velocity.x;
    }
    // 1 * (9/10)^10, exactly.
    assert!(mover.velocity.x.eq_q(&Q::new(3486784401, 10000000000)));
}
