//! The player's per-tick state update: derive acceleration from input,
//! resolve the collision with the tile set, apply jump and friction, then
//! integrate velocity and position.

use vstd::prelude::*;
use vstd::arithmetic::div_mod::{lemma_div_nonincreasing, lemma_div_pos_is_pos};
use crate::collider::{Collider, Interact, first_hit};
use crate::libs::{Controller, Rect, Vec2d, DT_LIMIT, FRICTION_LIMIT, UNIT, VEL_LIMIT};
use crate::object::Object;

verus! {

/// Downward acceleration reset at the start of every tick.
pub const GRAVITY: i64 = 20_000;

/// Magnitude of the horizontal acceleration from a left or right intent.
pub const MOVE_ACCEL: i64 = 10_000;

/// Magnitude of the upward velocity a jump from the ground sets.
pub const JUMP_SPEED: i64 = 10_000;

/// Velocity-proportional friction factor of a freshly created player.
pub const FRICTION: i64 = 2;

/// Bound on the values the time-scaling helper accepts and returns.
pub const PROD_LIMIT: i64 = 4_000_000_000_000_000;

/// Fixed-point product of a value with a millisecond delta: `a * dt / 1000`,
/// rounded toward zero.
pub open spec fn scaled(a: int, dt: int) -> int {
    if a * dt >= 0 {
        (a * dt) / (UNIT as int)
    } else {
        -((-(a * dt)) / (UNIT as int))
    }
}

/// Compute `scaled(a, dt)` exactly in machine arithmetic.
fn scale_time(a: i64, dt: i64) -> (r: i64)
    requires
        -PROD_LIMIT <= a <= PROD_LIMIT,
        0 <= dt <= DT_LIMIT,
    ensures
        r == scaled(a as int, dt as int),
        -PROD_LIMIT <= r <= PROD_LIMIT,
{
    proof {
        assert(-4_000_000_000_000_000_000 <= a * dt <= 4_000_000_000_000_000_000)
            by (nonlinear_arith)
            requires
                -4_000_000_000_000_000 <= a <= 4_000_000_000_000_000,
                0 <= dt <= 1000,
        ;
    }
    let p: i64 = a * dt;
    if p >= 0 {
        let q: u64 = (p as u64) / 1000;
        proof {
            lemma_div_pos_is_pos(p as int, 1000);
            lemma_div_nonincreasing(p as int, 1000);
        }
        q as i64
    } else {
        let np: i64 = -p;
        let q: u64 = (np as u64) / 1000;
        proof {
            lemma_div_pos_is_pos(np as int, 1000);
            lemma_div_nonincreasing(np as int, 1000);
        }
        -(q as i64)
    }
}

/// Horizontal acceleration chosen by the tick's input: a right intent wins
/// over a simultaneous left intent, as the update applies it last.
pub open spec fn accel_x(input: Controller) -> int {
    if input.right {
        MOVE_ACCEL as int
    } else if input.left {
        -(MOVE_ACCEL as int)
    } else {
        0
    }
}

/// Sprite facing after the tick's input, with the same right-wins tie-break.
pub open spec fn flip_after(input: Controller, flip: bool) -> bool {
    if input.right {
        false
    } else if input.left {
        true
    } else {
        flip
    }
}

/// The full state a tick leaves the player in, over unbounded integers.
pub ghost struct TickOut {
    pub ground: bool,
    pub x: int,
    pub y: int,
    pub vel_x: int,
    pub vel_y: int,
    pub acc_x: int,
    pub acc_y: int,
    pub flip: bool,
}

/// One tick of the player update, in the update's own order: collision
/// resolution snaps the box and zeroes the hit axis's velocity, a jump from
/// the ground sets the upward velocity, friction folds into the horizontal
/// acceleration, then `vel += acc * dt / 1000` and `pos += vel` (the
/// velocity is applied once per tick, unscaled by `dt`).
pub open spec fn tick(p: Player, input: Controller, dt: int, objs: Seq<Object>) -> TickOut {
    let fh = first_hit(p.rect, objs);
    let ground1 = match fh {
        Some((Interact::BOTTOM, _)) => true,
        _ => false,
    };
    let vx1 = match fh {
        Some((Interact::LEFT, _)) => 0,
        Some((Interact::RIGHT, _)) => 0,
        _ => p.vel.x as int,
    };
    let vy1 = match fh {
        Some((Interact::TOP, _)) => 0,
        Some((Interact::BOTTOM, _)) => 0,
        _ => p.vel.y as int,
    };
    let x1 = match fh {
        Some((Interact::LEFT, snap)) => snap,
        Some((Interact::RIGHT, snap)) => snap,
        _ => p.rect.x as int,
    };
    let y1 = match fh {
        Some((Interact::TOP, snap)) => snap,
        Some((Interact::BOTTOM, snap)) => snap,
        _ => p.rect.y as int,
    };
    let jumping = input.up && ground1;
    let vy2 = if jumping {
        -(JUMP_SPEED as int)
    } else {
        vy1
    };
    let ax = accel_x(input) - p.friction * vx1;
    let vx3 = vx1 + scaled(ax, dt);
    let vy3 = vy2 + scaled(GRAVITY as int, dt);
    TickOut {
        ground: ground1 && !input.up,
        x: x1 + vx3,
        y: y1 + vy3,
        vel_x: vx3,
        vel_y: vy3,
        acc_x: ax,
        acc_y: GRAVITY as int,
        flip: flip_after(input, p.flip),
    }
}

/// A player at rest whose box sits on a solid tile (the collision scan
/// reports `BOTTOM`), with no input: the tick reports ground contact, keeps
/// the horizontal velocity at zero, and leaves the box horizontally where it
/// was and vertically at the snap coordinate plus the one step of gravity
/// that the integration adds back after the collision zeroed the vertical
/// velocity. The velocity therefore ends at `(0, GRAVITY * dt / 1000)`, not
/// at zero on both axes: gravity is cancelled only up to that one step.
pub proof fn lemma_rest_on_ground(
    p: Player,
    input: Controller,
    dt: int,
    objs: Seq<Object>,
    snap: int,
)
    requires
        !input.up,
        !input.left,
        !input.right,
        p.vel.x == 0,
        p.vel.y == 0,
        first_hit(p.rect, objs) == Some((Interact::BOTTOM, snap)),
    ensures
        ({
            let t = tick(p, input, dt, objs);
            &&& t.ground
            &&& t.vel_x == 0
            &&& t.vel_y == scaled(GRAVITY as int, dt)
            &&& t.x == p.rect.x
            &&& t.y == snap + scaled(GRAVITY as int, dt)
            &&& t.flip == p.flip
        }),
{
    assert(p.friction * 0 == 0) by (nonlinear_arith);
    assert(0 * dt == 0) by (nonlinear_arith);
    assert(scaled(0, dt) == 0) by {
        vstd::arithmetic::div_mod::lemma_div_of0(UNIT as int);
    }
}

/// The player: hitbox, velocity, acceleration, ground state and sprite
/// facing, plus the friction factor the update applies.
pub struct Player {
    pub ground: bool,
    pub rect: Rect,
    pub acc: Vec2d,
    pub vel: Vec2d,
    pub friction: i64,
    pub flip: bool,
}

impl Player {
    /// A player at rest in the given box, not on the ground, facing right.
    pub fn new(rect: Rect) -> (p: Player)
        ensures
            p.ground == false,
            p.rect == rect,
            p.acc.x == 0 && p.acc.y == 0,
            p.vel.x == 0 && p.vel.y == 0,
            p.friction == FRICTION,
            p.flip == false,
    {
        Player {
            ground: false,
            rect,
            acc: Vec2d::new(),
            vel: Vec2d::new(),
            friction: FRICTION,
            flip: false,
        }
    }

    /// Advance the player by one tick against the tile set, which is read
    /// and not changed. The resulting state is exactly `tick` of the old
    /// state; the box's side length and insets never change.
    pub fn update(&mut self, dt: i64, input: Controller, objects: &Vec<Object>)
        requires
            old(self).rect.wf(),
            -VEL_LIMIT <= old(self).vel.x <= VEL_LIMIT,
            -VEL_LIMIT <= old(self).vel.y <= VEL_LIMIT,
            0 <= old(self).friction <= FRICTION_LIMIT,
            0 <= dt <= DT_LIMIT,
            forall|i: int| 0 <= i < objects@.len() ==> (#[trigger] objects@[i]).rect.wf(),
        ensures
            ({
                let t = tick(*old(self), input, dt as int, objects@);
                &&& final(self).ground == t.ground
                &&& final(self).rect.x == t.x
                &&& final(self).rect.y == t.y
                &&& final(self).vel.x == t.vel_x
                &&& final(self).vel.y == t.vel_y
                &&& final(self).acc.x == t.acc_x
                &&& final(self).acc.y == t.acc_y
                &&& final(self).flip == t.flip
            }),
            final(self).rect.w == old(self).rect.w,
            final(self).rect.h == old(self).rect.h,
            final(self).rect.scale == old(self).rect.scale,
            final(self).friction == old(self).friction,
    {
        self.acc = Vec2d { x: 0, y: GRAVITY };
        self.ground = false;

        if input.left {
            self.acc.x = -MOVE_ACCEL;
            self.flip = true;
        }
        if input.right {
            self.acc.x = MOVE_ACCEL;
            self.flip = false;
        }

        let collision = Collider::collision(&self.rect, objects);
        proof {
            crate::collider::lemma_first_hit_in_range(self.rect, objects@);
        }
        if let Some((side, snap)) = collision {
            match side {
                Interact::BOTTOM => {
                    self.ground = true;
                    self.vel.y = 0;
                    self.rect.y = snap;
                }
                Interact::TOP => {
                    self.vel.y = 0;
                    self.rect.y = snap;
                }
                Interact::RIGHT => {
                    self.vel.x = 0;
                    self.rect.x = snap;
                }
                Interact::LEFT => {
                    self.vel.x = 0;
                    self.rect.x = snap;
                }
            }
        }

        if input.up {
            if self.ground {
                self.vel.y = -JUMP_SPEED;
                self.ground = false;
            }
        }

        proof {
            assert(-1_000_000_000_000_000 <= self.vel.x * (-self.friction) <= 1_000_000_000_000_000)
                by (nonlinear_arith)
                requires
                    -1_000_000_000_000 <= self.vel.x <= 1_000_000_000_000,
                    0 <= self.friction <= 1000,
            ;
            assert(self.vel.x * (-self.friction) == -(self.friction * self.vel.x))
                by (nonlinear_arith);
        }
        self.acc.x = self.acc.x + self.vel.x * (-self.friction);
        let dvx = scale_time(self.acc.x, dt);
        let dvy = scale_time(self.acc.y, dt);
        self.vel.add(dvx, dvy);

        self.rect.x = self.rect.x + self.vel.x;
        self.rect.y = self.rect.y + self.vel.y;
    }
}

} // verus!
