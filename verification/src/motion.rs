//! Motion model.
//!
//! Accumulated directional input is consumed once per fixed step: the input
//! vector is normalized (so diagonal input is not faster than axis-aligned
//! input), scaled by the per-entity acceleration and the fixed delta, added
//! to the velocity; the velocity is damped by a factor in `(0, 1)` and
//! integrated into the physical position, with the previous physical
//! position snapshotted first. Every render frame the rendered transform is
//! interpolated between the previous and current physical position by the
//! scheduler's overstep fraction; it never feeds back into the simulation.
//!
//! Two interchangeable strategies realize the velocity update, selected per
//! entity and never mixed: `FixedAccumulated` (input accumulated across
//! render frames, consumed by [`Mover::fixed_step`]) and `DirectVelocity`
//! (a per-render-frame movement action applied by [`Mover::movement`]).
//!
//! Input is accumulated in integer milli-units handed in by the input
//! collaborator; everything downstream is exact rational arithmetic. The
//! exactness has a price: denominators multiply with every step, so the
//! arithmetic-fit preconditions (`step_fits` and friends) bound how far a
//! simulation can run at given magnitudes. They are ghost conditions — a
//! caller outside the verifier cannot test them at run time and must keep
//! its inputs and session length inside them by construction.

use vstd::prelude::*;
use crate::rational::{
    rat_add, rat_add_fits, rat_eq, rat_le, rat_lerp, rat_lerp_fits, rat_lt, rat_mul,
    rat_mul_fits, rat_one, rat_pow, rat_wf, rat_zero, Q, Rat,
};

verus! {

/// Accumulated input may not exceed these many milli-units per axis, so
/// that squared lengths stay within `u64`.
pub const MAX_INPUT_ACCUM: i64 = 2_000_000_000;

/// A 2D vector of exact rationals.
#[derive(Clone, Copy, Debug)]
pub struct Vec2 {
    pub x: Q,
    pub y: Q,
}

/// The ghost value of a [`Vec2`].
pub struct RatVec2 {
    pub x: Rat,
    pub y: Rat,
}

impl View for Vec2 {
    type V = RatVec2;

    open spec fn view(&self) -> RatVec2 {
        RatVec2 { x: self.x@, y: self.y@ }
    }
}

impl Vec2 {
    pub open spec fn wf(&self) -> bool {
        self.x.wf() && self.y.wf()
    }

    pub fn new(x: Q, y: Q) -> (r: Vec2)
        requires
            x.wf(),
            y.wf(),
        ensures
            r.wf(),
            r@.x == x@,
            r@.y == y@,
    {
        Vec2 { x, y }
    }

    pub fn zero() -> (r: Vec2)
        ensures
            r.wf(),
            r@.x == rat_zero(),
            r@.y == rat_zero(),
    {
        Vec2 { x: Q::zero(), y: Q::zero() }
    }
}

/// The ceiling square root relation: `r` is the least value whose square
/// reaches `n`.
pub open spec fn is_sqrt_ceil(n: int, r: int) -> bool {
    &&& r >= 0
    &&& r * r >= n
    &&& (r == 0 || (r - 1) * (r - 1) < n)
}

/// The ceiling square root of a non-negative value.
pub open spec fn sqrt_ceil_spec(n: int) -> int {
    choose|r: int| #[trigger] is_sqrt_ceil(n, r)
}

/// The ceiling square root is unique.
pub proof fn lemma_sqrt_ceil_unique(n: int, r1: int, r2: int)
    requires
        n >= 0,
        is_sqrt_ceil(n, r1),
        is_sqrt_ceil(n, r2),
    ensures
        r1 == r2,
{
    assert(r1 == r2) by (nonlinear_arith)
        requires
            n >= 0,
            r1 >= 0,
            r1 * r1 >= n,
            r1 == 0 || (r1 - 1) * (r1 - 1) < n,
            r2 >= 0,
            r2 * r2 >= n,
            r2 == 0 || (r2 - 1) * (r2 - 1) < n,
    ;
}

/// Ceiling square root: the least `r` with `r * r >= n`.
pub fn sqrt_ceil(n: u64) -> (r: u64)
    ensures
        r <= 0x1_0000_0000,
        is_sqrt_ceil(n as int, r as int),
        r == sqrt_ceil_spec(n as int),
        n > 0 ==> r >= 1,
{
    let mut lo: u64 = 0;
    let mut hi: u64 = 0x1_0000_0000;
    proof {
        assert((0x1_0000_0000 as int) * (0x1_0000_0000 as int) >= n as int);
    }
    while lo < hi
        invariant
            0 <= lo <= hi <= 0x1_0000_0000,
            (hi as int) * (hi as int) >= n as int,
            lo == 0 || (lo - 1) * (lo - 1) < n as int,
        decreases hi - lo,
    {
        let mid = lo + (hi - lo) / 2;
        proof {
            assert((mid as int) * (mid as int) <= (0x1_0000_0000 as int) * (0x1_0000_0000 as int))
                by (nonlinear_arith)
                requires
                    0 <= mid <= 0x1_0000_0000,
            ;
        }
        let sq: u128 = (mid as u128) * (mid as u128);
        if sq >= (n as u128) {
            hi = mid;
        } else {
            lo = mid + 1;
        }
    }
    proof {
        let w = choose|r: int| #[trigger] is_sqrt_ceil(n as int, r);
        assert(is_sqrt_ceil(n as int, lo as int));
        lemma_sqrt_ceil_unique(n as int, w, lo as int);
    }
    lo
}

/// The normalized direction of an accumulated input vector: zero for zero
/// input, otherwise each component divided by the ceiling square root of the
/// squared length — a unit-or-shorter direction.
pub open spec fn dir_spec(x: int, y: int) -> RatVec2 {
    if x == 0 && y == 0 {
        RatVec2 { x: rat_zero(), y: rat_zero() }
    } else {
        let l = sqrt_ceil_spec(x * x + y * y);
        RatVec2 { x: Rat { n: x, d: l }, y: Rat { n: y, d: l } }
    }
}

/// Normalize an accumulated input vector.
pub fn normalize_input(x: i64, y: i64) -> (dir: Vec2)
    requires
        -MAX_INPUT_ACCUM <= x <= MAX_INPUT_ACCUM,
        -MAX_INPUT_ACCUM <= y <= MAX_INPUT_ACCUM,
    ensures
        dir.wf(),
        dir@ == dir_spec(x as int, y as int),
{
    if x == 0 && y == 0 {
        Vec2::zero()
    } else {
        proof {
            assert(x * x >= 0 && x * x <= 0x3782_dace_9d90_0000) by (nonlinear_arith)
                requires
                    -2_000_000_000 <= x <= 2_000_000_000,
            ;
            assert(y * y >= 0 && y * y <= 0x3782_dace_9d90_0000) by (nonlinear_arith)
                requires
                    -2_000_000_000 <= y <= 2_000_000_000,
            ;
            assert(x * x + y * y > 0) by (nonlinear_arith)
                requires
                    !(x == 0 && y == 0),
            ;
        }
        let xx: i64 = x * x;
        let yy: i64 = y * y;
        let l = sqrt_ceil((xx as u64) + (yy as u64));
        Vec2 { x: Q::new(x, l as i64), y: Q::new(y, l as i64) }
    }
}

/// A normalized direction is never longer than a unit vector: the sum of
/// the squares of its components is at most one.
pub proof fn lemma_dir_unit_bounded(x: int, y: int)
    requires
        -MAX_INPUT_ACCUM <= x <= MAX_INPUT_ACCUM,
        -MAX_INPUT_ACCUM <= y <= MAX_INPUT_ACCUM,
    ensures
        rat_le(
            rat_add(
                rat_mul(dir_spec(x, y).x, dir_spec(x, y).x),
                rat_mul(dir_spec(x, y).y, dir_spec(x, y).y),
            ),
            rat_one(),
        ),
{
    let d = dir_spec(x, y);
    let s = rat_add(rat_mul(d.x, d.x), rat_mul(d.y, d.y));
    if x == 0 && y == 0 {
        assert(d.x == rat_zero() && d.y == rat_zero());
        assert(rat_mul(rat_zero(), rat_zero()) == (Rat { n: 0int * 0int, d: 1int * 1int }));
        assert(0int * 0int == 0 && 1int * 1int == 1) by (nonlinear_arith);
        assert(s.n == 0 * 1 + 0 * 1 && s.d == 1 * 1);
        assert(s.n * 1 <= 1 * s.d);
    } else {
        let n = x * x + y * y;
        let l = sqrt_ceil_spec(n);
        assert(n > 0) by (nonlinear_arith)
            requires
                n == x * x + y * y,
                !(x == 0 && y == 0),
        ;
        assert(exists|r: int| #[trigger] is_sqrt_ceil(n, r)) by {
            lemma_sqrt_exists(n);
        }
        assert(is_sqrt_ceil(n, l));
        assert(l >= 1) by (nonlinear_arith)
            requires
                n > 0,
                l >= 0,
                l * l >= n,
        ;
        assert(s.n == (x * x) * (l * l) + (y * y) * (l * l));
        assert(s.d == (l * l) * (l * l));
        assert(s.n * 1 <= 1 * s.d) by (nonlinear_arith)
            requires
                s.n == (x * x) * (l * l) + (y * y) * (l * l),
                s.d == (l * l) * (l * l),
                l * l >= x * x + y * y,
                l >= 1,
        ;
    }
}

/// A ceiling square root exists for every non-negative value.
pub proof fn lemma_sqrt_exists(n: int)
    requires
        n >= 0,
    ensures
        exists|r: int| #[trigger] is_sqrt_ceil(n, r),
    decreases n,
{
    if n == 0 {
        assert(is_sqrt_ceil(0, 0));
    } else {
        lemma_sqrt_exists(n - 1);
        let r = choose|r: int| #[trigger] is_sqrt_ceil(n - 1, r);
        if r * r >= n {
            assert(is_sqrt_ceil(n, r));
        } else {
            assert(is_sqrt_ceil(n, r + 1)) by (nonlinear_arith)
                requires
                    r >= 0,
                    r * r >= n - 1,
                    r * r < n,
            ;
        }
    }
}

/// Facing of a sprite, selected from the sign of the dominant axis of the
/// sampled input; on equal magnitudes the vertical axis takes precedence.
#[derive(Debug, PartialEq, Eq, Structural, Clone, Copy)]
pub enum Facing {
    Up,
    Down,
    Left,
    Right,
}

/// The facing selected by an input vector: the sign of its dominant axis,
/// independent of the fixed-step cadence; zero input selects none.
pub open spec fn facing_of(x: int, y: int) -> Option<Facing> {
    let ax = if x < 0 { -x } else { x };
    let ay = if y < 0 { -y } else { y };
    if y > 0 && ay >= ax {
        Some(Facing::Up)
    } else if y < 0 && ay >= ax {
        Some(Facing::Down)
    } else if x > 0 {
        Some(Facing::Right)
    } else if x < 0 {
        Some(Facing::Left)
    } else {
        None
    }
}

/// Executable form of [`facing_of`].
pub fn facing_from_input(x: i64, y: i64) -> (r: Option<Facing>)
    requires
        -MAX_INPUT_ACCUM <= x <= MAX_INPUT_ACCUM,
        -MAX_INPUT_ACCUM <= y <= MAX_INPUT_ACCUM,
    ensures
        r == facing_of(x as int, y as int),
{
    let ax: i64 = if x < 0 {
        -x
    } else {
        x
    };
    let ay: i64 = if y < 0 {
        -y
    } else {
        y
    };
    if y > 0 && ay >= ax {
        Some(Facing::Up)
    } else if y < 0 && ay >= ax {
        Some(Facing::Down)
    } else if x > 0 {
        Some(Facing::Right)
    } else if x < 0 {
        Some(Facing::Left)
    } else {
        None
    }
}

/// The sprite sheet frame index of a facing.
pub open spec fn spec_frame_index(f: Facing) -> u8 {
    match f {
        Facing::Left => 20u8,
        Facing::Down => 21u8,
        Facing::Up => 22u8,
        Facing::Right => 23u8,
    }
}

/// The sprite sheet frame that shows a facing.
pub fn frame_index(f: Facing) -> (r: u8)
    ensures
        r == spec_frame_index(f),
{
    match f {
        Facing::Left => 20,
        Facing::Down => 21,
        Facing::Up => 22,
        Facing::Right => 23,
    }
}

/// How a controllable entity's velocity is driven; chosen per entity and
/// never mixed.
#[derive(Debug, PartialEq, Eq, Structural, Clone, Copy)]
pub enum MovementStrategy {
    /// Input is accumulated across render frames and consumed once per
    /// fixed step.
    FixedAccumulated,
    /// A movement action is applied directly to the velocity every render
    /// frame.
    DirectVelocity,
}

/// The plugin that installs the character controller chain: keyboard input
/// to movement actions, movement actions to velocity, then damping.
pub struct CharacterControllerPlugin;

/// A movement input action: the raw direction the controls produced this
/// frame, in the input collaborator's integer units per axis.
#[derive(Debug, PartialEq, Eq, Structural, Clone, Copy)]
pub enum MovementAction {
    Move(i64, i64),
}

/// The horizontal component of a movement action.
pub open spec fn action_dx(a: MovementAction) -> int {
    match a {
        MovementAction::Move(dx, _) => dx as int,
    }
}

/// The vertical component of a movement action.
pub open spec fn action_dy(a: MovementAction) -> int {
    match a {
        MovementAction::Move(_, dy) => dy as int,
    }
}

/// A marker for an entity using a character controller.
#[derive(Debug, PartialEq, Eq, Structural, Clone, Copy)]
pub struct CharacterController;

/// The acceleration used for character movement.
#[derive(Clone, Copy, Debug)]
pub struct MovementAcceleration(pub Q);

/// The damping factor used for slowing down movement.
#[derive(Clone, Copy, Debug)]
pub struct MovementDampingFactor(pub Q);

/// The movement constants of a controllable entity.
#[derive(Clone, Copy, Debug)]
pub struct MovementBundle {
    pub acceleration: MovementAcceleration,
    pub damping: MovementDampingFactor,
}

impl MovementBundle {
    pub open spec fn wf(&self) -> bool {
        &&& self.acceleration.0.wf()
        &&& self.damping.0.wf()
        &&& rat_lt(rat_zero(), self.damping.0@)
        &&& rat_lt(self.damping.0@, rat_one())
    }

    /// Movement constants: an acceleration and a damping factor in `(0, 1)`.
    pub fn new(acceleration: Q, damping: Q) -> (r: MovementBundle)
        requires
            acceleration.wf(),
            damping.wf(),
            rat_lt(rat_zero(), damping@),
            rat_lt(damping@, rat_one()),
        ensures
            r.wf(),
            r.acceleration.0 == acceleration,
            r.damping.0 == damping,
    {
        MovementBundle {
            acceleration: MovementAcceleration(acceleration),
            damping: MovementDampingFactor(damping),
        }
    }
}

impl Default for MovementBundle {
    /// The stock constants: acceleration 30, damping 9/10.
    fn default() -> (r: Self)
        ensures
            r.wf(),
            r.acceleration.0@ == (Rat { n: 30, d: 1 }),
            r.damping.0@ == (Rat { n: 9, d: 10 }),
    {
        MovementBundle {
            acceleration: MovementAcceleration(Q::new(30, 1)),
            damping: MovementDampingFactor(Q::new(9, 10)),
        }
    }
}

/// The components of a basic kinematic character controller: the marker and
/// the movement constants. Collision geometry belongs to the physics
/// collaborator, outside this core.
#[derive(Clone, Copy, Debug)]
pub struct CharacterControllerBundle {
    pub character_controller: CharacterController,
    pub movement: MovementBundle,
}

impl CharacterControllerBundle {
    pub fn new() -> (r: CharacterControllerBundle)
        ensures
            r.movement.wf(),
            r.movement.acceleration.0@ == (Rat { n: 30, d: 1 }),
            r.movement.damping.0@ == (Rat { n: 9, d: 10 }),
    {
        CharacterControllerBundle {
            character_controller: CharacterController,
            movement: MovementBundle::default(),
        }
    }

    pub fn with_movement(self, acceleration: Q, damping: Q) -> (r: CharacterControllerBundle)
        requires
            acceleration.wf(),
            damping.wf(),
            rat_lt(rat_zero(), damping@),
            rat_lt(damping@, rat_one()),
        ensures
            r.movement.wf(),
            r.movement.acceleration.0 == acceleration,
            r.movement.damping.0 == damping,
    {
        CharacterControllerBundle {
            character_controller: self.character_controller,
            movement: MovementBundle::new(acceleration, damping),
        }
    }
}

/// The ghost value of a [`Mover`].
pub struct MoverModel {
    pub velocity: RatVec2,
    pub physical: RatVec2,
    pub previous: RatVec2,
    pub input_x: int,
    pub input_y: int,
    pub acceleration: Rat,
    pub damping: Rat,
}

/// The simulated state of one controllable entity.
#[derive(Clone, Copy, Debug)]
pub struct Mover {
    pub velocity: Vec2,
    pub physical: Vec2,
    pub previous: Vec2,
    pub input_x: i64,
    pub input_y: i64,
    pub bundle: MovementBundle,
    pub strategy: MovementStrategy,
}

impl View for Mover {
    type V = MoverModel;

    open spec fn view(&self) -> MoverModel {
        MoverModel {
            velocity: self.velocity@,
            physical: self.physical@,
            previous: self.previous@,
            input_x: self.input_x as int,
            input_y: self.input_y as int,
            acceleration: self.bundle.acceleration.0@,
            damping: self.bundle.damping.0@,
        }
    }
}

/// One fixed step of the motion model: consume the accumulated input as a
/// normalized direction scaled by acceleration and the fixed delta, damp the
/// velocity, snapshot the previous physical position, integrate, and reset
/// the accumulator.
pub open spec fn step_spec(m: MoverModel, dt: Rat) -> MoverModel {
    let dir = dir_spec(m.input_x, m.input_y);
    let ad = rat_mul(m.acceleration, dt);
    let v1x = rat_add(m.velocity.x, rat_mul(dir.x, ad));
    let v1y = rat_add(m.velocity.y, rat_mul(dir.y, ad));
    let v2x = rat_mul(v1x, m.damping);
    let v2y = rat_mul(v1y, m.damping);
    MoverModel {
        velocity: RatVec2 { x: v2x, y: v2y },
        physical: RatVec2 {
            x: rat_add(m.physical.x, rat_mul(v2x, dt)),
            y: rat_add(m.physical.y, rat_mul(v2y, dt)),
        },
        previous: m.physical,
        input_x: 0,
        input_y: 0,
        acceleration: m.acceleration,
        damping: m.damping,
    }
}

/// Every intermediate fraction of [`step_spec`] fits in `i64` arithmetic.
pub open spec fn step_fits(m: MoverModel, dt: Rat) -> bool {
    let dir = dir_spec(m.input_x, m.input_y);
    let ad = rat_mul(m.acceleration, dt);
    let v1x = rat_add(m.velocity.x, rat_mul(dir.x, ad));
    let v1y = rat_add(m.velocity.y, rat_mul(dir.y, ad));
    let v2x = rat_mul(v1x, m.damping);
    let v2y = rat_mul(v1y, m.damping);
    &&& rat_mul_fits(m.acceleration, dt)
    &&& rat_mul_fits(dir.x, ad)
    &&& rat_mul_fits(dir.y, ad)
    &&& rat_add_fits(m.velocity.x, rat_mul(dir.x, ad))
    &&& rat_add_fits(m.velocity.y, rat_mul(dir.y, ad))
    &&& rat_mul_fits(v1x, m.damping)
    &&& rat_mul_fits(v1y, m.damping)
    &&& rat_mul_fits(v2x, dt)
    &&& rat_mul_fits(v2y, dt)
    &&& rat_add_fits(m.physical.x, rat_mul(v2x, dt))
    &&& rat_add_fits(m.physical.y, rat_mul(v2y, dt))
}

impl Mover {
    pub open spec fn wf(&self) -> bool {
        &&& self.velocity.wf()
        &&& self.physical.wf()
        &&& self.previous.wf()
        &&& self.bundle.wf()
        &&& -MAX_INPUT_ACCUM <= self.input_x <= MAX_INPUT_ACCUM
        &&& -MAX_INPUT_ACCUM <= self.input_y <= MAX_INPUT_ACCUM
    }

    /// A new entity at rest: velocity zero, previous equal to physical, no
    /// accumulated input.
    pub fn new(start: Vec2, bundle: MovementBundle, strategy: MovementStrategy) -> (r: Mover)
        requires
            start.wf(),
            bundle.wf(),
        ensures
            r.wf(),
            r@.velocity.x == rat_zero(),
            r@.velocity.y == rat_zero(),
            r@.physical == start@,
            r@.previous == start@,
            r@.input_x == 0,
            r@.input_y == 0,
            r.bundle == bundle,
            r.strategy == strategy,
    {
        Mover {
            velocity: Vec2::zero(),
            physical: start,
            previous: start,
            input_x: 0,
            input_y: 0,
            bundle,
            strategy,
        }
    }

    /// Add one render frame's raw input to the accumulator. The accumulator
    /// is consumed, and reset, only by the next fixed step.
    pub fn accumulate_input(&mut self, dx: i64, dy: i64)
        requires
            old(self).wf(),
            old(self).strategy == MovementStrategy::FixedAccumulated,
            -MAX_INPUT_ACCUM <= old(self).input_x + dx <= MAX_INPUT_ACCUM,
            -MAX_INPUT_ACCUM <= old(self).input_y + dy <= MAX_INPUT_ACCUM,
        ensures
            final(self).wf(),
            final(self).input_x == old(self).input_x + dx,
            final(self).input_y == old(self).input_y + dy,
            final(self).velocity == old(self).velocity,
            final(self).physical == old(self).physical,
            final(self).previous == old(self).previous,
            final(self).bundle == old(self).bundle,
            final(self).strategy == old(self).strategy,
    {
        self.input_x = self.input_x + dx;
        self.input_y = self.input_y + dy;
    }

    /// Run one fixed step at the fixed delta `dt`.
    pub fn fixed_step(&mut self, dt: &Q)
        requires
            old(self).wf(),
            old(self).strategy == MovementStrategy::FixedAccumulated,
            dt.wf(),
            step_fits(old(self)@, dt@),
        ensures
            final(self).wf(),
            final(self)@ == step_spec(old(self)@, dt@),
            final(self).bundle == old(self).bundle,
            final(self).strategy == old(self).strategy,
    {
        let dir = normalize_input(self.input_x, self.input_y);
        let ad = self.bundle.acceleration.0.mul(dt);
        let v1x = self.velocity.x.add(&dir.x.mul(&ad));
        let v1y = self.velocity.y.add(&dir.y.mul(&ad));
        let v2x = v1x.mul(&self.bundle.damping.0);
        let v2y = v1y.mul(&self.bundle.damping.0);
        self.previous = self.physical;
        self.physical = Vec2 {
            x: self.physical.x.add(&v2x.mul(dt)),
            y: self.physical.y.add(&v2y.mul(dt)),
        };
        self.velocity = Vec2 { x: v2x, y: v2y };
        self.input_x = 0;
        self.input_y = 0;
    }

    /// Damp the velocity by the entity's damping factor, emulating friction.
    /// Used on its own by the per-frame strategy; the fixed step damps as
    /// part of [`Mover::fixed_step`].
    pub fn apply_movement_damping(&mut self)
        requires
            old(self).wf(),
            rat_mul_fits(old(self)@.velocity.x, old(self)@.damping),
            rat_mul_fits(old(self)@.velocity.y, old(self)@.damping),
        ensures
            final(self).wf(),
            final(self)@.velocity.x == rat_mul(old(self)@.velocity.x, old(self)@.damping),
            final(self)@.velocity.y == rat_mul(old(self)@.velocity.y, old(self)@.damping),
            final(self).physical == old(self).physical,
            final(self).previous == old(self).previous,
            final(self).input_x == old(self).input_x,
            final(self).input_y == old(self).input_y,
            final(self).bundle == old(self).bundle,
            final(self).strategy == old(self).strategy,
    {
        self.velocity = Vec2 {
            x: self.velocity.x.mul(&self.bundle.damping.0),
            y: self.velocity.y.mul(&self.bundle.damping.0),
        };
    }

    /// Apply one movement action directly to the velocity, the per-frame
    /// strategy: the action's direction is normalized to a unit-or-shorter
    /// vector — so diagonal input is not faster than axis-aligned input —
    /// then `velocity += direction * acceleration * dt`. Returns the facing
    /// the action selects, a pure function of the direction's signs.
    pub fn movement(&mut self, action: &MovementAction, dt: &Q) -> (facing: Option<Facing>)
        requires
            old(self).wf(),
            old(self).strategy == MovementStrategy::DirectVelocity,
            dt.wf(),
            -MAX_INPUT_ACCUM <= action_dx(*action) <= MAX_INPUT_ACCUM,
            -MAX_INPUT_ACCUM <= action_dy(*action) <= MAX_INPUT_ACCUM,
            rat_mul_fits(old(self)@.acceleration, dt@),
            rat_mul_fits(
                dir_spec(action_dx(*action), action_dy(*action)).x,
                rat_mul(old(self)@.acceleration, dt@),
            ),
            rat_mul_fits(
                dir_spec(action_dx(*action), action_dy(*action)).y,
                rat_mul(old(self)@.acceleration, dt@),
            ),
            rat_add_fits(
                old(self)@.velocity.x,
                rat_mul(
                    dir_spec(action_dx(*action), action_dy(*action)).x,
                    rat_mul(old(self)@.acceleration, dt@),
                ),
            ),
            rat_add_fits(
                old(self)@.velocity.y,
                rat_mul(
                    dir_spec(action_dx(*action), action_dy(*action)).y,
                    rat_mul(old(self)@.acceleration, dt@),
                ),
            ),
        ensures
            final(self).wf(),
            facing == facing_of(action_dx(*action), action_dy(*action)),
            (action_dx(*action) == 0 && action_dy(*action) == 0) ==> final(self).velocity == old(
                self,
            ).velocity,
            !(action_dx(*action) == 0 && action_dy(*action) == 0) ==> {
                &&& final(self)@.velocity.x == rat_add(
                    old(self)@.velocity.x,
                    rat_mul(
                        dir_spec(action_dx(*action), action_dy(*action)).x,
                        rat_mul(old(self)@.acceleration, dt@),
                    ),
                )
                &&& final(self)@.velocity.y == rat_add(
                    old(self)@.velocity.y,
                    rat_mul(
                        dir_spec(action_dx(*action), action_dy(*action)).y,
                        rat_mul(old(self)@.acceleration, dt@),
                    ),
                )
            },
            final(self).physical == old(self).physical,
            final(self).previous == old(self).previous,
            final(self).input_x == old(self).input_x,
            final(self).input_y == old(self).input_y,
            final(self).bundle == old(self).bundle,
            final(self).strategy == old(self).strategy,
    {
        let (dir_x, dir_y) = match action {
            MovementAction::Move(dx, dy) => (*dx, *dy),
        };
        if !(dir_x == 0 && dir_y == 0) {
            let dir = normalize_input(dir_x, dir_y);
            let ad = self.bundle.acceleration.0.mul(dt);
            self.velocity = Vec2 {
                x: self.velocity.x.add(&dir.x.mul(&ad)),
                y: self.velocity.y.add(&dir.y.mul(&ad)),
            };
        }
        facing_from_input(dir_x, dir_y)
    }

    /// The rendered transform for the current render frame: the previous and
    /// current physical position interpolated by the scheduler's overstep
    /// fraction. Derived only — it never advances the simulation.
    pub fn interpolated(&self, overstep: &Q) -> (r: Vec2)
        requires
            self.wf(),
            overstep.wf(),
            rat_lerp_fits(self@.previous.x, self@.physical.x, overstep@),
            rat_lerp_fits(self@.previous.y, self@.physical.y, overstep@),
        ensures
            r.wf(),
            r@.x == rat_lerp(self@.previous.x, self@.physical.x, overstep@),
            r@.y == rat_lerp(self@.previous.y, self@.physical.y, overstep@),
    {
        Vec2 {
            x: self.previous.x.lerp(&self.physical.x, overstep),
            y: self.previous.y.lerp(&self.physical.y, overstep),
        }
    }
}

/// The motion model state after `n` consecutive fixed steps.
pub open spec fn steps_spec(m: MoverModel, dt: Rat, n: nat) -> MoverModel
    decreases n,
{
    if n == 0 {
        m
    } else {
        step_spec(steps_spec(m, dt, (n - 1) as nat), dt)
    }
}

/// Every one of `n` consecutive fixed steps fits in `i64` arithmetic.
pub open spec fn steps_fit(m: MoverModel, dt: Rat, n: nat) -> bool
    decreases n,
{
    n == 0 || (step_fits(m, dt) && steps_fit(step_spec(m, dt), dt, (n - 1) as nat))
}

/// One zero-input step scales a velocity component: the damped value over
/// `n` steps keeps following the previous power of the damping factor.
#[verifier::rlimit(50)]
proof fn lemma_decay_axis(vel: Rat, v0: Rat, ad: Rat, dm: Rat, pn1: int, pd1: int, nv: Rat)
    requires
        vel.d > 0,
        ad.d > 0,
        dm.d > 0,
        vel.n * (v0.d * pd1) == (v0.n * pn1) * vel.d,
        nv == rat_mul(rat_add(vel, rat_mul(rat_zero(), ad)), dm),
    ensures
        nv.d > 0,
        nv.n * (v0.d * (dm.d * pd1)) == (v0.n * (dm.n * pn1)) * nv.d,
        vel.n != 0 && dm.n != 0 ==> nv.n != 0,
{
    let z = rat_mul(rat_zero(), ad);
    assert(z.n == 0 && z.d == ad.d) by (nonlinear_arith)
        requires
            z == rat_mul(rat_zero(), ad),
    ;
    let v1 = rat_add(vel, z);
    assert(v1.n == vel.n * ad.d && v1.d == vel.d * ad.d) by (nonlinear_arith)
        requires
            v1 == rat_add(vel, z),
            z.n == 0,
            z.d == ad.d,
    ;
    assert(nv.n == (vel.n * ad.d) * dm.n && nv.d == (vel.d * ad.d) * dm.d);
    assert(nv.d > 0) by (nonlinear_arith)
        requires
            nv.d == (vel.d * ad.d) * dm.d,
            vel.d > 0,
            ad.d > 0,
            dm.d > 0,
    ;
    let lhs0 = vel.n * (v0.d * pd1);
    let rhs0 = (v0.n * pn1) * vel.d;
    assert(((vel.n * ad.d) * dm.n) * (v0.d * (dm.d * pd1)) == (ad.d * (dm.n * dm.d)) * lhs0)
        by (nonlinear_arith)
        requires
            lhs0 == vel.n * (v0.d * pd1),
    ;
    let x1 = v0.n * pn1;
    assert(v0.n * (dm.n * pn1) == dm.n * x1) by (nonlinear_arith)
        requires
            x1 == v0.n * pn1,
    ;
    let y1 = (vel.d * ad.d) * dm.d;
    assert(y1 == ad.d * (dm.d * vel.d)) by (nonlinear_arith)
        requires
            y1 == (vel.d * ad.d) * dm.d,
    ;
    assert((dm.n * x1) * (ad.d * (dm.d * vel.d)) == (ad.d * (dm.n * dm.d)) * (x1 * vel.d))
        by (nonlinear_arith);
    assert((v0.n * (dm.n * pn1)) * ((vel.d * ad.d) * dm.d) == (ad.d * (dm.n * dm.d)) * rhs0);
    if vel.n != 0 && dm.n != 0 {
        assert(nv.n != 0) by (nonlinear_arith)
            requires
                nv.n == (vel.n * ad.d) * dm.n,
                vel.n != 0,
                ad.d > 0,
                dm.n != 0,
        ;
    }
}

/// Velocity decay under damping alone. Given zero accumulated input for `n`
/// consecutive fixed steps, the velocity after those steps equals the
/// initial velocity times the `n`-th power of the damping factor — it decays
/// toward zero but a nonzero velocity never reaches exactly zero in finitely
/// many steps.
pub proof fn lemma_velocity_decay(m: MoverModel, dt: Rat, n: nat)
    requires
        m.input_x == 0,
        m.input_y == 0,
        rat_wf(m.velocity.x),
        rat_wf(m.velocity.y),
        rat_wf(m.acceleration),
        rat_wf(m.damping),
        rat_wf(dt),
    ensures
        steps_spec(m, dt, n).input_x == 0,
        steps_spec(m, dt, n).input_y == 0,
        steps_spec(m, dt, n).acceleration == m.acceleration,
        steps_spec(m, dt, n).damping == m.damping,
        rat_wf(steps_spec(m, dt, n).velocity.x),
        rat_wf(steps_spec(m, dt, n).velocity.y),
        rat_eq(steps_spec(m, dt, n).velocity.x, rat_mul(m.velocity.x, rat_pow(m.damping, n))),
        rat_eq(steps_spec(m, dt, n).velocity.y, rat_mul(m.velocity.y, rat_pow(m.damping, n))),
        m.velocity.x.n != 0 && m.damping.n != 0 ==> steps_spec(m, dt, n).velocity.x.n != 0,
        m.velocity.y.n != 0 && m.damping.n != 0 ==> steps_spec(m, dt, n).velocity.y.n != 0,
    decreases n,
{
    let v0x = m.velocity.x;
    let v0y = m.velocity.y;
    let dm = m.damping;
    if n == 0 {
        vstd::arithmetic::power::lemma_pow0(dm.n);
        vstd::arithmetic::power::lemma_pow0(dm.d);
        assert(rat_pow(dm, 0) == rat_one());
        assert(rat_eq(v0x, rat_mul(v0x, rat_one()))) by (nonlinear_arith);
        assert(rat_eq(v0y, rat_mul(v0y, rat_one()))) by (nonlinear_arith);
    } else {
        lemma_velocity_decay(m, dt, (n - 1) as nat);
        let p = steps_spec(m, dt, (n - 1) as nat);
        let s = step_spec(p, dt);
        assert(steps_spec(m, dt, n) == s);
        let ad = rat_mul(p.acceleration, dt);
        assert(ad.d > 0) by (nonlinear_arith)
            requires
                ad.d == m.acceleration.d * dt.d,
                m.acceleration.d > 0,
                dt.d > 0,
        ;
        assert(dir_spec(p.input_x, p.input_y) == (RatVec2 { x: rat_zero(), y: rat_zero() }));
        let pn1 = vstd::arithmetic::power::pow(dm.n, (n - 1) as nat);
        let pd1 = vstd::arithmetic::power::pow(dm.d, (n - 1) as nat);
        assert(rat_pow(dm, n).n == dm.n * pn1 && rat_pow(dm, n).d == dm.d * pd1) by {
            reveal(vstd::arithmetic::power::pow);
        }
        lemma_decay_axis(p.velocity.x, v0x, ad, dm, pn1, pd1, s.velocity.x);
        lemma_decay_axis(p.velocity.y, v0y, ad, dm, pn1, pd1, s.velocity.y);
    }
}

/// The magnitude of `a` is strictly below the magnitude of `b`, for well
/// formed fractions, by cross multiplication.
pub open spec fn rat_abs_lt(a: Rat, b: Rat) -> bool {
    (if a.n < 0 {
        -a.n
    } else {
        a.n
    }) * b.d < (if b.n < 0 {
        -b.n
    } else {
        b.n
    }) * a.d
}

/// A velocity component after `n` applications of damping alone, as
/// [`Mover::apply_movement_damping`] performs them.
pub open spec fn damped_n(v: Rat, d: Rat, n: nat) -> Rat
    decreases n,
{
    if n == 0 {
        v
    } else {
        rat_mul(damped_n(v, d, (n - 1) as nat), d)
    }
}

/// One application of a damping factor in `(0, 1)` strictly shrinks the
/// magnitude of a nonzero velocity component.
pub proof fn lemma_damping_strictly_decreases(v: Rat, d: Rat)
    requires
        rat_wf(v),
        rat_wf(d),
        rat_lt(rat_zero(), d),
        rat_lt(d, rat_one()),
        v.n != 0,
    ensures
        rat_abs_lt(rat_mul(v, d), v),
{
    let m = rat_mul(v, d);
    assert(0 * d.d == 0 && d.n * 1 == d.n && 1 * d.d == d.d) by (nonlinear_arith);
    assert(0 < d.n && d.n < d.d);
    let av = if v.n < 0 {
        -v.n
    } else {
        v.n
    };
    let am = if m.n < 0 {
        -m.n
    } else {
        m.n
    };
    assert(m.n == v.n * d.n);
    if v.n < 0 {
        assert(v.n * d.n < 0 && -(v.n * d.n) == (-v.n) * d.n) by (nonlinear_arith)
            requires
                v.n < 0,
                d.n > 0,
        ;
    } else {
        assert(v.n * d.n > 0) by (nonlinear_arith)
            requires
                v.n > 0,
                d.n > 0,
        ;
    }
    assert(am == av * d.n);
    assert((av * d.n) * v.d < av * (v.d * d.d)) by (nonlinear_arith)
        requires
            av > 0,
            v.d > 0,
            0 < d.n < d.d,
    ;
}

/// Velocity decay under damping alone, for the per-frame damping path:
/// after `n` applications the component's value equals the initial value
/// times the `n`-th power of the damping factor; every application strictly
/// shrinks a nonzero component's magnitude, yet the component never becomes
/// exactly zero in finitely many applications — it converges toward zero
/// without reaching it.
pub proof fn lemma_damping_only_decay(v: Rat, d: Rat, n: nat)
    requires
        rat_wf(v),
        rat_wf(d),
        rat_lt(rat_zero(), d),
        rat_lt(d, rat_one()),
    ensures
        rat_wf(damped_n(v, d, n)),
        rat_eq(damped_n(v, d, n), rat_mul(v, rat_pow(d, n))),
        v.n != 0 ==> damped_n(v, d, n).n != 0,
        v.n != 0 ==> rat_abs_lt(damped_n(v, d, (n + 1) as nat), damped_n(v, d, n)),
    decreases n,
{
    assert(0 * d.d == 0 && d.n * 1 == d.n && 1 * d.d == d.d) by (nonlinear_arith);
    assert(0 < d.n && d.n < d.d);
    if n == 0 {
        vstd::arithmetic::power::lemma_pow0(d.n);
        vstd::arithmetic::power::lemma_pow0(d.d);
        assert(rat_pow(d, 0) == rat_one());
        assert(rat_eq(v, rat_mul(v, rat_one()))) by (nonlinear_arith);
        if v.n != 0 {
            assert(damped_n(v, d, 0nat) == v);
            assert(damped_n(v, d, 1nat) == rat_mul(damped_n(v, d, 0nat), d));
            lemma_damping_strictly_decreases(v, d);
        }
    } else {
        lemma_damping_only_decay(v, d, (n - 1) as nat);
        let p = damped_n(v, d, (n - 1) as nat);
        let cur = damped_n(v, d, n);
        assert(cur == rat_mul(p, d));
        assert(cur.d > 0) by (nonlinear_arith)
            requires
                p.d > 0,
                d.d > 0,
                cur.d == p.d * d.d,
        ;
        let pn1 = vstd::arithmetic::power::pow(d.n, (n - 1) as nat);
        let pd1 = vstd::arithmetic::power::pow(d.d, (n - 1) as nat);
        assert(rat_pow(d, n).n == d.n * pn1 && rat_pow(d, n).d == d.d * pd1) by {
            reveal(vstd::arithmetic::power::pow);
        }
        assert((p.n * d.n) * (v.d * (d.d * pd1)) == (d.n * d.d) * (p.n * (v.d * pd1)))
            by (nonlinear_arith);
        assert((v.n * (d.n * pn1)) * (p.d * d.d) == (d.n * d.d) * ((v.n * pn1) * p.d))
            by (nonlinear_arith);
        assert(cur.n * (v.d * rat_pow(d, n).d) == (v.n * rat_pow(d, n).n) * cur.d);
        if v.n != 0 {
            assert(cur.n != 0) by (nonlinear_arith)
                requires
                    cur.n == p.n * d.n,
                    p.n != 0,
                    d.n > 0,
            ;
            assert(damped_n(v, d, (n + 1) as nat) == rat_mul(cur, d));
            lemma_damping_strictly_decreases(cur, d);
        }
    }
}

/// Convert pressed key pairs into a movement action, or nothing when no key
/// is down: right minus left, up minus down.
pub fn keyboard_input(left: bool, right: bool, up: bool, down: bool) -> (r: Option<MovementAction>)
    ensures
        r == {
            let h = (if right {
                1int
            } else {
                0int
            }) - (if left {
                1int
            } else {
                0int
            });
            let v = (if up {
                1int
            } else {
                0int
            }) - (if down {
                1int
            } else {
                0int
            });
            if h == 0 && v == 0 {
                None::<MovementAction>
            } else {
                Some(MovementAction::Move(h as i64, v as i64))
            }
        },
{
    let h: i64 = (if right {
        1i64
    } else {
        0i64
    }) - (if left {
        1i64
    } else {
        0i64
    });
    let v: i64 = (if up {
        1i64
    } else {
        0i64
    }) - (if down {
        1i64
    } else {
        0i64
    });
    if h == 0 && v == 0 {
        None
    } else {
        Some(MovementAction::Move(h, v))
    }
}

} // verus!
