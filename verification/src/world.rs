//! The game state and the three per-tick systems: motion integration,
//! paddle control, and collision resolution.

use vstd::prelude::*;

verus! {

use vstd::arithmetic::div_mod::lemma_div_is_ordered;
use vstd::arithmetic::div_mod::lemma_div_multiples_vanish;
use vstd::arithmetic::div_mod::lemma_fundamental_div_mod;
use vstd::math::abs;
use crate::constants::BALL_RADIUS;
use crate::constants::BALL_START_VX;
use crate::constants::BALL_START_VY;
use crate::constants::BALL_START_X;
use crate::constants::BALL_START_Y;
use crate::constants::BOUNCE_DENOMINATOR;
use crate::constants::BOUNCE_NUMERATOR;
use crate::constants::DT_MAX;
use crate::constants::PADDLE_HALF_HEIGHT;
use crate::constants::PADDLE_HALF_WIDTH;
use crate::constants::PADDLE_MAX_X;
use crate::constants::PADDLE_MIN_X;
use crate::constants::PADDLE_SPEED;
use crate::constants::PADDLE_START_Y;
use crate::constants::POS_LIMIT;
use crate::constants::TRAVEL_LIMIT;
use crate::constants::VEL_LIMIT;
use crate::constants::VEL_STEP_LIMIT;
use crate::geometry::box_in_bounds;
use crate::geometry::clamp;
use crate::geometry::clamp_i64;
use crate::geometry::collide_at;
use crate::geometry::collide_with_side;
use crate::geometry::Aabb;
use crate::geometry::Circle;
use crate::geometry::Collision;
use crate::geometry::Vec2;
use crate::walls::WallLocation;

/// The single moving entity: the ball's position (in position subunits) and
/// velocity (in units per second).
#[derive(Clone, Copy, PartialEq, Eq, Structural, Debug)]
pub struct Ball {
    pub pos: Vec2,
    pub vel: Vec2,
}

/// The whole simulation state. The playfield's walls are fixed, the paddle
/// only ever moves horizontally along its fixed y line, and exactly one ball
/// and one paddle exist by construction.
#[derive(Clone, Copy, PartialEq, Eq, Structural, Debug)]
pub struct World {
    pub ball: Ball,
    pub paddle_x: i64,
}

/// The paddle's direction scalar: a held left key contributes -1, a held
/// right key +1, so both or neither cancel to 0.
pub open spec fn direction_spec(left: bool, right: bool) -> int {
    (if left { -1int } else { 0int }) + (if right { 1int } else { 0int })
}

/// Where the paddle ends up: its center advances by
/// `direction * PADDLE_SPEED * dt` and is then clamped so that its extent
/// (half the paddle plus half a wall) never crosses the playfield boundary.
pub open spec fn paddle_step(x: int, left: bool, right: bool, dt: int) -> int {
    clamp(
        x + direction_spec(left, right) * (PADDLE_SPEED as int) * dt,
        PADDLE_MIN_X as int,
        PADDLE_MAX_X as int,
    )
}

/// A reflected velocity component: the sign flips and the magnitude grows by
/// the bounce factor 105/100, rounded down.
pub open spec fn reflect_spec(v: int) -> int {
    if v >= 0 {
        -((v * (BOUNCE_NUMERATOR as int)) / (BOUNCE_DENOMINATOR as int))
    } else {
        ((-v) * (BOUNCE_NUMERATOR as int)) / (BOUNCE_DENOMINATOR as int)
    }
}

/// The reflection policy for one detected collision: a side reflects the
/// axis it faces only when the ball moves toward the collider on that axis,
/// and the other axis is untouched.
pub open spec fn reflect_rule(side: Collision, vx: int, vy: int) -> (int, int) {
    match side {
        Collision::Left => if vx > 0 { (reflect_spec(vx), vy) } else { (vx, vy) },
        Collision::Right => if vx < 0 { (reflect_spec(vx), vy) } else { (vx, vy) },
        Collision::Top => if vy < 0 { (vx, reflect_spec(vy)) } else { (vx, vy) },
        Collision::Bottom => if vy > 0 { (vx, reflect_spec(vy)) } else { (vx, vy) },
    }
}

/// The ball's velocity after testing it against one collider box: unchanged
/// when they do not intersect, else reflected per the impact side.
pub open spec fn resolve_collider(
    px: int,
    py: int,
    vx: int,
    vy: int,
    cx: int,
    cy: int,
    hx: int,
    hy: int,
) -> (int, int) {
    match collide_at(px, py, BALL_RADIUS as int, cx, cy, hx, hy) {
        Some(side) => reflect_rule(side, vx, vy),
        None => (vx, vy),
    }
}

/// [`resolve_collider`] over a box value.
pub open spec fn resolve_box(px: int, py: int, vx: int, vy: int, wall: Aabb) -> (int, int) {
    resolve_collider(
        px,
        py,
        vx,
        vy,
        wall.center.x as int,
        wall.center.y as int,
        wall.half.x as int,
        wall.half.y as int,
    )
}

/// The ball's velocity after one collision pass: every collider is tested in
/// a fixed order (paddle, then the left, right, bottom and top walls), each
/// intersecting collider applies its own reflection, and there is no early
/// exit after a hit.
pub open spec fn resolve_all(px: int, py: int, vx: int, vy: int, paddle_x: int) -> (int, int) {
    let v1 = resolve_collider(
        px,
        py,
        vx,
        vy,
        paddle_x,
        PADDLE_START_Y as int,
        PADDLE_HALF_WIDTH as int,
        PADDLE_HALF_HEIGHT as int,
    );
    let v2 = resolve_box(px, py, v1.0, v1.1, WallLocation::Left.aabb_spec());
    let v3 = resolve_box(px, py, v2.0, v2.1, WallLocation::Right.aabb_spec());
    let v4 = resolve_box(px, py, v3.0, v3.1, WallLocation::Bottom.aabb_spec());
    let v5 = resolve_box(px, py, v4.0, v4.1, WallLocation::Top.aabb_spec());
    v5
}

/// One whole tick: positions integrate first, then the paddle moves, then
/// collisions are resolved against the just-updated positions. The result is
/// (ball x, ball y, ball vx, ball vy, paddle x).
pub open spec fn tick_model(
    px: int,
    py: int,
    vx: int,
    vy: int,
    paddle_x: int,
    left: bool,
    right: bool,
    dt: int,
) -> (int, int, int, int, int) {
    let px1 = px + vx * dt;
    let py1 = py + vy * dt;
    let pad1 = paddle_step(paddle_x, left, right, dt);
    let v = resolve_all(px1, py1, vx, vy, pad1);
    (px1, py1, v.0, v.1, pad1)
}

/// Multiplying by a direction scalar of -1, 0 or +1 negates, cancels or
/// keeps the displacement.
proof fn lemma_direction_mul(d: int, s: int, t: int)
    requires
        d == -1 || d == 0 || d == 1,
    ensures
        d == 0 ==> d * s * t == 0,
        d == -1 ==> d * s * t == -(s * t),
        d == 1 ==> d * s * t == s * t,
{
    if d == 0 {
        assert(d * s * t == 0) by (nonlinear_arith)
            requires
                d == 0,
        ;
    } else if d == -1 {
        assert(d * s * t == -(s * t)) by (nonlinear_arith)
            requires
                d == -1,
        ;
    } else {
        assert(d * s * t == s * t) by (nonlinear_arith)
            requires
                d == 1,
        ;
    }
}

/// A product of a velocity within `VEL_LIMIT` and a tick within `DT_MAX`
/// stays well inside the machine range.
proof fn lemma_vel_dt_bound(v: int, t: int)
    requires
        -1_000_000_000_000 <= v <= 1_000_000_000_000,
        0 <= t <= 1_000_000,
    ensures
        -1_000_000_000_000_000_000 <= v * t <= 1_000_000_000_000_000_000,
{
    assert(-1_000_000_000_000_000_000 <= v * t <= 1_000_000_000_000_000_000) by (nonlinear_arith)
        requires
            -1_000_000_000_000 <= v <= 1_000_000_000_000,
            0 <= t <= 1_000_000,
    ;
}

/// Scaling a nonnegative value by 105/100 (rounded down) keeps it
/// nonnegative and at most doubles it.
proof fn lemma_bounce_scale_bound(m: int)
    requires
        m >= 0,
    ensures
        0 <= (m * 105) / 100 <= 2 * m,
{
    lemma_div_is_ordered(0, m * 105, 100);
    assert(m * 105 <= 100 * (2 * m));
    lemma_div_is_ordered(m * 105, 100 * (2 * m), 100);
    lemma_div_multiples_vanish(2 * m, 100);
}

/// One reflected velocity component. Relies on nothing outside the crate;
/// the arithmetic runs on the magnitude so that the rounding of the bounce
/// factor is the plain rounding-down of nonnegative division.
fn reflect(v: i64) -> (r: i64)
    requires
        -VEL_STEP_LIMIT <= v <= VEL_STEP_LIMIT,
    ensures
        r as int == reflect_spec(v as int),
        abs(r as int) <= 2 * abs(v as int),
{
    if v >= 0 {
        let m: u64 = v as u64;
        let scaled: u64 = (m * 105) / 100;
        proof {
            lemma_bounce_scale_bound(v as int);
        }
        -(scaled as i64)
    } else {
        let m: u64 = (-v) as u64;
        let scaled: u64 = (m * 105) / 100;
        proof {
            lemma_bounce_scale_bound(-(v as int));
        }
        scaled as i64
    }
}

impl World {
    /// The paddle's center never stands past the playfield boundaries.
    pub open spec fn wf(self) -> bool {
        PADDLE_MIN_X <= self.paddle_x <= PADDLE_MAX_X
    }

    /// The initial scene: the ball at its starting point with its starting
    /// velocity, and the paddle centered at the bottom line.
    pub fn new() -> (w: World)
        ensures
            w.ball.pos == (Vec2 { x: BALL_START_X, y: BALL_START_Y }),
            w.ball.vel == (Vec2 { x: BALL_START_VX, y: BALL_START_VY }),
            w.paddle_x == 0,
            w.wf(),
    {
        World {
            ball: Ball {
                pos: Vec2 { x: BALL_START_X, y: BALL_START_Y },
                vel: Vec2 { x: BALL_START_VX, y: BALL_START_VY },
            },
            paddle_x: 0,
        }
    }

    /// The motion integrator: the ball's position advances by exactly its
    /// velocity times the elapsed time, on both axes.
    pub fn apply_velocity(&mut self, dt: u64)
        requires
            dt <= DT_MAX,
            -POS_LIMIT <= old(self).ball.pos.x <= POS_LIMIT,
            -POS_LIMIT <= old(self).ball.pos.y <= POS_LIMIT,
            -VEL_LIMIT <= old(self).ball.vel.x <= VEL_LIMIT,
            -VEL_LIMIT <= old(self).ball.vel.y <= VEL_LIMIT,
        ensures
            final(self).ball.pos.x as int == old(self).ball.pos.x + old(self).ball.vel.x * dt,
            final(self).ball.pos.y as int == old(self).ball.pos.y + old(self).ball.vel.y * dt,
            final(self).ball.vel == old(self).ball.vel,
            final(self).paddle_x == old(self).paddle_x,
    {
        proof {
            lemma_vel_dt_bound(self.ball.vel.x as int, dt as int);
            lemma_vel_dt_bound(self.ball.vel.y as int, dt as int);
        }
        let dt_i = dt as i64;
        self.ball.pos.x = self.ball.pos.x + self.ball.vel.x * dt_i;
        self.ball.pos.y = self.ball.pos.y + self.ball.vel.y * dt_i;
    }

    /// The paddle controller: held keys give a direction, the paddle's
    /// center advances by `direction * PADDLE_SPEED * dt` and is clamped to
    /// the playfield; its y never changes, nor does the ball.
    pub fn move_paddle(&mut self, left_pressed: bool, right_pressed: bool, dt: u64)
        requires
            dt <= DT_MAX,
            -POS_LIMIT <= old(self).paddle_x <= POS_LIMIT,
        ensures
            final(self).paddle_x as int == paddle_step(
                old(self).paddle_x as int,
                left_pressed,
                right_pressed,
                dt as int,
            ),
            final(self).ball == old(self).ball,
            final(self).wf(),
    {
        proof {
            lemma_direction_mul(
                direction_spec(left_pressed, right_pressed),
                PADDLE_SPEED as int,
                dt as int,
            );
        }
        let step = PADDLE_SPEED * (dt as i64);
        let new_x = if left_pressed == right_pressed {
            self.paddle_x
        } else if left_pressed {
            self.paddle_x - step
        } else {
            self.paddle_x + step
        };
        self.paddle_x = clamp_i64(new_x, PADDLE_MIN_X, PADDLE_MAX_X);
    }

    /// Tests the ball against one collider box and applies the reflection
    /// policy to the ball's velocity; positions are never moved here.
    fn collide(&mut self, wall: Aabb)
        requires
            box_in_bounds(wall),
            -TRAVEL_LIMIT <= old(self).ball.pos.x <= TRAVEL_LIMIT,
            -TRAVEL_LIMIT <= old(self).ball.pos.y <= TRAVEL_LIMIT,
            -VEL_STEP_LIMIT <= old(self).ball.vel.x <= VEL_STEP_LIMIT,
            -VEL_STEP_LIMIT <= old(self).ball.vel.y <= VEL_STEP_LIMIT,
        ensures
            (final(self).ball.vel.x as int, final(self).ball.vel.y as int) == resolve_box(
                old(self).ball.pos.x as int,
                old(self).ball.pos.y as int,
                old(self).ball.vel.x as int,
                old(self).ball.vel.y as int,
                wall,
            ),
            abs(final(self).ball.vel.x as int) <= 2 * abs(old(self).ball.vel.x as int),
            abs(final(self).ball.vel.y as int) <= 2 * abs(old(self).ball.vel.y as int),
            final(self).ball.pos == old(self).ball.pos,
            final(self).paddle_x == old(self).paddle_x,
    {
        let ball_shape = Circle { center: self.ball.pos, radius: BALL_RADIUS };
        match collide_with_side(ball_shape, wall) {
            Some(side) => {
                let mut reflect_x = false;
                let mut reflect_y = false;
                match side {
                    Collision::Left => {
                        reflect_x = self.ball.vel.x > 0;
                    },
                    Collision::Right => {
                        reflect_x = self.ball.vel.x < 0;
                    },
                    Collision::Top => {
                        reflect_y = self.ball.vel.y < 0;
                    },
                    Collision::Bottom => {
                        reflect_y = self.ball.vel.y > 0;
                    },
                }
                if reflect_x {
                    self.ball.vel.x = reflect(self.ball.vel.x);
                }
                if reflect_y {
                    self.ball.vel.y = reflect(self.ball.vel.y);
                }
            },
            None => {},
        }
    }

    /// The collision resolver: the ball is tested against every collider in
    /// a fixed order (paddle, left, right, bottom, top), and each
    /// intersecting collider applies its own reflection to the velocity.
    #[verifier::rlimit(50)]
    pub fn check_ball_collision(&mut self)
        requires
            old(self).wf(),
            -TRAVEL_LIMIT <= old(self).ball.pos.x <= TRAVEL_LIMIT,
            -TRAVEL_LIMIT <= old(self).ball.pos.y <= TRAVEL_LIMIT,
            -VEL_LIMIT <= old(self).ball.vel.x <= VEL_LIMIT,
            -VEL_LIMIT <= old(self).ball.vel.y <= VEL_LIMIT,
        ensures
            (final(self).ball.vel.x as int, final(self).ball.vel.y as int) == resolve_all(
                old(self).ball.pos.x as int,
                old(self).ball.pos.y as int,
                old(self).ball.vel.x as int,
                old(self).ball.vel.y as int,
                old(self).paddle_x as int,
            ),
            final(self).ball.pos == old(self).ball.pos,
            final(self).paddle_x == old(self).paddle_x,
            final(self).wf(),
    {
        let paddle_box = Aabb {
            center: Vec2 { x: self.paddle_x, y: PADDLE_START_Y },
            half: Vec2 { x: PADDLE_HALF_WIDTH, y: PADDLE_HALF_HEIGHT },
        };
        self.collide(paddle_box);
        self.collide(WallLocation::Left.aabb());
        self.collide(WallLocation::Right.aabb());
        self.collide(WallLocation::Bottom.aabb());
        self.collide(WallLocation::Top.aabb());
    }

    /// One fixed simulation tick, in the mandatory order: integrate motion,
    /// move the paddle, then resolve collisions.
    pub fn tick(&mut self, left_pressed: bool, right_pressed: bool, dt: u64)
        requires
            old(self).wf(),
            dt <= DT_MAX,
            -POS_LIMIT <= old(self).ball.pos.x <= POS_LIMIT,
            -POS_LIMIT <= old(self).ball.pos.y <= POS_LIMIT,
            -VEL_LIMIT <= old(self).ball.vel.x <= VEL_LIMIT,
            -VEL_LIMIT <= old(self).ball.vel.y <= VEL_LIMIT,
        ensures
            final(self).ball.pos.x as int == tick_model(
                old(self).ball.pos.x as int,
                old(self).ball.pos.y as int,
                old(self).ball.vel.x as int,
                old(self).ball.vel.y as int,
                old(self).paddle_x as int,
                left_pressed,
                right_pressed,
                dt as int,
            ).0,
            final(self).ball.pos.y as int == tick_model(
                old(self).ball.pos.x as int,
                old(self).ball.pos.y as int,
                old(self).ball.vel.x as int,
                old(self).ball.vel.y as int,
                old(self).paddle_x as int,
                left_pressed,
                right_pressed,
                dt as int,
            ).1,
            final(self).ball.vel.x as int == tick_model(
                old(self).ball.pos.x as int,
                old(self).ball.pos.y as int,
                old(self).ball.vel.x as int,
                old(self).ball.vel.y as int,
                old(self).paddle_x as int,
                left_pressed,
                right_pressed,
                dt as int,
            ).2,
            final(self).ball.vel.y as int == tick_model(
                old(self).ball.pos.x as int,
                old(self).ball.pos.y as int,
                old(self).ball.vel.x as int,
                old(self).ball.vel.y as int,
                old(self).paddle_x as int,
                left_pressed,
                right_pressed,
                dt as int,
            ).3,
            final(self).paddle_x as int == tick_model(
                old(self).ball.pos.x as int,
                old(self).ball.pos.y as int,
                old(self).ball.vel.x as int,
                old(self).ball.vel.y as int,
                old(self).paddle_x as int,
                left_pressed,
                right_pressed,
                dt as int,
            ).4,
            final(self).wf(),
    {
        proof {
            lemma_vel_dt_bound(self.ball.vel.x as int, dt as int);
            lemma_vel_dt_bound(self.ball.vel.y as int, dt as int);
        }
        self.apply_velocity(dt);
        self.move_paddle(left_pressed, right_pressed, dt);
        self.check_ball_collision();
    }
}

/// A tick with a resting ball and no held keys changes nothing: zero
/// velocity integrates to the same position, the paddle stays wherever it
/// legally stands, and no reflection fires on a zero velocity.
pub proof fn lemma_noop_tick(px: int, py: int, paddle_x: int, dt: int)
    requires
        PADDLE_MIN_X <= paddle_x <= PADDLE_MAX_X,
    ensures
        tick_model(px, py, 0, 0, paddle_x, false, false, dt).0 == px,
        tick_model(px, py, 0, 0, paddle_x, false, false, dt).1 == py,
        tick_model(px, py, 0, 0, paddle_x, false, false, dt).2 == 0,
        tick_model(px, py, 0, 0, paddle_x, false, false, dt).3 == 0,
        tick_model(px, py, 0, 0, paddle_x, false, false, dt).4 == paddle_x,
{
}

/// Wherever the paddle starts and whatever the input and elapsed time, one
/// paddle step always lands within the playfield's legal range.
pub proof fn lemma_paddle_clamp(x: int, left: bool, right: bool, dt: int)
    ensures
        PADDLE_MIN_X <= paddle_step(x, left, right, dt) <= PADDLE_MAX_X,
{
}

/// A reflection flips the sign of the reflected component, and on any
/// velocity that the bounce denominator divides evenly its magnitude grows
/// by exactly the factor 21/20 (that is, 1.05).
pub proof fn lemma_reflection_energy(v: int)
    requires
        v % 20 == 0,
    ensures
        20 * reflect_spec(v) == -(21 * v),
        v > 0 ==> reflect_spec(v) < 0,
        v < 0 ==> reflect_spec(v) > 0,
{
    let k = v / 20;
    lemma_fundamental_div_mod(v, 20);
    if v >= 0 {
        assert(v * 105 == 100 * (21 * k));
        lemma_div_multiples_vanish(21 * k, 100);
        assert(reflect_spec(v) == -(21 * k));
    } else {
        assert((-v) * 105 == 100 * (-(21 * k)));
        lemma_div_multiples_vanish(-(21 * k), 100);
        assert(reflect_spec(v) == -(21 * k));
    }
}

/// A reflecting collision leaves the orthogonal axis bit-for-bit unchanged:
/// a horizontal impact side never touches the vertical velocity, and a
/// vertical side never touches the horizontal one.
pub proof fn lemma_reflection_orthogonal(side: Collision, vx: int, vy: int)
    ensures
        (side == Collision::Left || side == Collision::Right) ==> reflect_rule(side, vx, vy).1
            == vy,
        (side == Collision::Top || side == Collision::Bottom) ==> reflect_rule(side, vx, vy).0
            == vx,
{
}

} // verus!
