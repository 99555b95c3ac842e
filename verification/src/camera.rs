//! The bounded viewport: a fixed on-screen rectangle that keeps the player
//! inside it by clamping the player to the crossed edge and scrolling every
//! world object opposite the player's velocity.

use vstd::prelude::*;
use crate::libs::{POS_LIMIT, VEL_LIMIT};
use crate::object::Object;
use crate::player::Player;

verus! {

/// The fixed viewport rectangle (`x`, `y`, `w`, `h` in screen space) plus
/// the world bounds recorded at load time.
pub struct Camera {
    pub x: i64,
    pub y: i64,
    pub w: i64,
    pub h: i64,
    pub max_w: i64,
    pub max_h: i64,
}

impl Camera {
    pub open spec fn wf(self) -> bool {
        &&& -POS_LIMIT <= self.x <= POS_LIMIT
        &&& -POS_LIMIT <= self.y <= POS_LIMIT
        &&& 0 <= self.w <= POS_LIMIT
        &&& 0 <= self.h <= POS_LIMIT
        &&& 0 <= self.max_w <= POS_LIMIT
        &&& 0 <= self.max_h <= POS_LIMIT
    }

    /// The player's box has reached or crossed the left viewport edge.
    pub open spec fn hits_left(self, p: Player) -> bool {
        p.rect.x <= self.x
    }

    /// The player's box has reached or crossed the top viewport edge.
    pub open spec fn hits_top(self, p: Player) -> bool {
        p.rect.y <= self.y
    }

    /// The right-edge check runs after the left clamp, so it reads the
    /// possibly already clamped horizontal position.
    pub open spec fn hits_right(self, p: Player) -> bool {
        (if self.hits_left(p) {
            self.x as int
        } else {
            p.rect.x as int
        }) + p.rect.scale >= self.x + self.w
    }

    /// The bottom-edge check likewise reads the possibly clamped vertical
    /// position.
    pub open spec fn hits_bottom(self, p: Player) -> bool {
        (if self.hits_top(p) {
            self.y as int
        } else {
            p.rect.y as int
        }) + p.rect.scale >= self.y + self.h
    }

    /// Horizontal position the update leaves the player at: the right clamp
    /// runs last and wins over the left clamp.
    pub open spec fn x_after(self, p: Player) -> int {
        if self.hits_right(p) {
            self.x + self.w - p.rect.scale
        } else if self.hits_left(p) {
            self.x as int
        } else {
            p.rect.x as int
        }
    }

    /// Vertical position the update leaves the player at.
    pub open spec fn y_after(self, p: Player) -> int {
        if self.hits_bottom(p) {
            self.y + self.h - p.rect.scale
        } else if self.hits_top(p) {
            self.y as int
        } else {
            p.rect.y as int
        }
    }

    /// Total amount the update subtracts from every object's horizontal
    /// position: the player's horizontal velocity once per crossed vertical
    /// edge, so a box wider than the viewport subtracts it twice in one
    /// tick.
    pub open spec fn x_shift_total(self, p: Player) -> int {
        (if self.hits_left(p) {
            p.vel.x as int
        } else {
            0int
        }) + (if self.hits_right(p) {
            p.vel.x as int
        } else {
            0int
        })
    }

    /// Total amount the update subtracts from every object's vertical
    /// position.
    pub open spec fn y_shift_total(self, p: Player) -> int {
        (if self.hits_top(p) {
            p.vel.y as int
        } else {
            0int
        }) + (if self.hits_bottom(p) {
            p.vel.y as int
        } else {
            0int
        })
    }

    pub fn new(x: i64, y: i64, w: i64, h: i64, max_w: i64, max_h: i64) -> (c: Camera)
        requires
            -POS_LIMIT <= x <= POS_LIMIT,
            -POS_LIMIT <= y <= POS_LIMIT,
            0 <= w <= POS_LIMIT,
            0 <= h <= POS_LIMIT,
            0 <= max_w <= POS_LIMIT,
            0 <= max_h <= POS_LIMIT,
        ensures
            c == (Camera { x, y, w, h, max_w, max_h }),
            c.wf(),
    {
        Camera { x, y, w, h, max_w, max_h }
    }

    /// Keep the player inside the viewport. Each crossed edge clamps the
    /// player back onto the edge and scrolls the whole world opposite the
    /// player's velocity; the world shifts compose additively when several
    /// edges trigger in one tick. The camera rectangle itself never moves.
    pub fn update(&self, player: &mut Player, objects: &mut Vec<Object>)
        requires
            self.wf(),
            old(player).rect.wf(),
            -VEL_LIMIT <= old(player).vel.x <= VEL_LIMIT,
            -VEL_LIMIT <= old(player).vel.y <= VEL_LIMIT,
            forall|i: int| 0 <= i < old(objects)@.len()
                ==> (#[trigger] old(objects)@[i]).rect.pos_ok(),
        ensures
            final(player).rect.x == self.x_after(*old(player)),
            final(player).rect.y == self.y_after(*old(player)),
            final(player).rect.w == old(player).rect.w,
            final(player).rect.h == old(player).rect.h,
            final(player).rect.scale == old(player).rect.scale,
            final(player).vel == old(player).vel,
            final(player).acc == old(player).acc,
            final(player).ground == old(player).ground,
            final(player).flip == old(player).flip,
            final(player).friction == old(player).friction,
            final(objects)@.len() == old(objects)@.len(),
            forall|i: int| 0 <= i < old(objects)@.len() ==> {
                let before = #[trigger] old(objects)@[i];
                let after = final(objects)@[i];
                &&& after.rect.x == before.rect.x - self.x_shift_total(*old(player))
                &&& after.rect.y == before.rect.y - self.y_shift_total(*old(player))
                &&& after.rect.w == before.rect.w
                &&& after.rect.h == before.rect.h
                &&& after.rect.scale == before.rect.scale
                &&& after.solid == before.solid
            },
    {
        let ghost s0 = objects@;

        if player.rect.x <= self.x {
            player.rect.x = self.x;
            shift_objects_x(objects, player.vel.x);
        }

        let ghost s1 = objects@;
        proof {
            assert forall|i: int| 0 <= i < s1.len() implies shift_ok(#[trigger] s1[i], 1) by {
                assert(s0[i].rect.pos_ok());
            }
        }

        if player.rect.y <= self.y {
            player.rect.y = self.y;
            shift_objects_y(objects, player.vel.y);
        }

        let ghost s2 = objects@;
        proof {
            assert forall|i: int| 0 <= i < s2.len() implies shift_ok(#[trigger] s2[i], 2) by {
                assert(shift_ok(s1[i], 1));
            }
        }

        if player.rect.x + player.rect.scale >= self.x + self.w {
            player.rect.x = self.x + self.w - player.rect.scale;
            shift_objects_x(objects, player.vel.x);
        }

        let ghost s3 = objects@;
        proof {
            assert forall|i: int| 0 <= i < s3.len() implies shift_ok(#[trigger] s3[i], 3) by {
                assert(shift_ok(s2[i], 2));
            }
        }

        if player.rect.y + player.rect.scale >= self.y + self.h {
            player.rect.y = self.y + self.h - player.rect.scale;
            shift_objects_y(objects, player.vel.y);
        }

        proof {
            let p0 = *old(player);
            assert forall|i: int| 0 <= i < old(objects)@.len() implies {
                let before = #[trigger] old(objects)@[i];
                let after = objects@[i];
                &&& after.rect.x == before.rect.x - self.x_shift_total(p0)
                &&& after.rect.y == before.rect.y - self.y_shift_total(p0)
                &&& after.rect.w == before.rect.w
                &&& after.rect.h == before.rect.h
                &&& after.rect.scale == before.rect.scale
                &&& after.solid == before.solid
            } by {
                let before = old(objects)@[i];
                let a1 = s1[i];
                let a2 = s2[i];
                let a3 = s3[i];
                let after = objects@[i];
                if self.hits_left(p0) {
                    assert(a1.rect.x == before.rect.x - p0.vel.x);
                } else {
                    assert(a1.rect.x == before.rect.x);
                }
                assert(a2.rect.x == a1.rect.x);
                if self.hits_right(p0) {
                    assert(a3.rect.x == a2.rect.x - p0.vel.x);
                } else {
                    assert(a3.rect.x == a2.rect.x);
                }
                assert(after.rect.x == a3.rect.x);
                assert(after.rect.x == before.rect.x - self.x_shift_total(p0));
                assert(a1.rect.y == before.rect.y);
                if self.hits_top(p0) {
                    assert(a2.rect.y == a1.rect.y - p0.vel.y);
                } else {
                    assert(a2.rect.y == a1.rect.y);
                }
                assert(a3.rect.y == a2.rect.y);
                if self.hits_bottom(p0) {
                    assert(after.rect.y == a3.rect.y - p0.vel.y);
                } else {
                    assert(after.rect.y == a3.rect.y);
                }
                assert(after.rect.y == before.rect.y - self.y_shift_total(p0));
            }
        }
    }
}

/// The object's position strayed from the accepted range by at most `k`
/// world shifts.
spec fn shift_ok(o: Object, k: int) -> bool {
    &&& -POS_LIMIT - k * VEL_LIMIT <= o.rect.x <= POS_LIMIT + k * VEL_LIMIT
    &&& -POS_LIMIT - k * VEL_LIMIT <= o.rect.y <= POS_LIMIT + k * VEL_LIMIT
}

/// Subtract `d` from every object's horizontal position.
fn shift_objects_x(objects: &mut Vec<Object>, d: i64)
    requires
        -VEL_LIMIT <= d <= VEL_LIMIT,
        forall|i: int| 0 <= i < old(objects)@.len()
            ==> shift_ok(#[trigger] old(objects)@[i], 3),
    ensures
        final(objects)@.len() == old(objects)@.len(),
        forall|i: int| 0 <= i < old(objects)@.len() ==> {
            let before = #[trigger] old(objects)@[i];
            let after = final(objects)@[i];
            &&& after.rect.x == before.rect.x - d
            &&& after.rect.y == before.rect.y
            &&& after.rect.w == before.rect.w
            &&& after.rect.h == before.rect.h
            &&& after.rect.scale == before.rect.scale
            &&& after.solid == before.solid
        },
{
    let ghost orig = objects@;
    let mut j: usize = 0;
    while j < objects.len()
        invariant
            objects@.len() == orig.len(),
            j <= objects@.len(),
            -VEL_LIMIT <= d <= VEL_LIMIT,
            forall|i: int| 0 <= i < orig.len() ==> shift_ok(#[trigger] orig[i], 3),
            forall|i: int| 0 <= i < j ==> {
                let before = #[trigger] orig[i];
                let after = objects@[i];
                &&& after.rect.x == before.rect.x - d
                &&& after.rect.y == before.rect.y
                &&& after.rect.w == before.rect.w
                &&& after.rect.h == before.rect.h
                &&& after.rect.scale == before.rect.scale
                &&& after.solid == before.solid
            },
            forall|i: int| j <= i < orig.len() ==> objects@[i] == orig[i],
        decreases orig.len() - j,
    {
        proof {
            assert(objects@[j as int] == orig[j as int]);
            assert(shift_ok(orig[j as int], 3));
        }
        let mut o = objects[j];
        o.rect.x = o.rect.x - d;
        objects.set(j, o);
        j += 1;
    }
}

/// Subtract `d` from every object's vertical position.
fn shift_objects_y(objects: &mut Vec<Object>, d: i64)
    requires
        -VEL_LIMIT <= d <= VEL_LIMIT,
        forall|i: int| 0 <= i < old(objects)@.len()
            ==> shift_ok(#[trigger] old(objects)@[i], 3),
    ensures
        final(objects)@.len() == old(objects)@.len(),
        forall|i: int| 0 <= i < old(objects)@.len() ==> {
            let before = #[trigger] old(objects)@[i];
            let after = final(objects)@[i];
            &&& after.rect.x == before.rect.x
            &&& after.rect.y == before.rect.y - d
            &&& after.rect.w == before.rect.w
            &&& after.rect.h == before.rect.h
            &&& after.rect.scale == before.rect.scale
            &&& after.solid == before.solid
        },
{
    let ghost orig = objects@;
    let mut j: usize = 0;
    while j < objects.len()
        invariant
            objects@.len() == orig.len(),
            j <= objects@.len(),
            -VEL_LIMIT <= d <= VEL_LIMIT,
            forall|i: int| 0 <= i < orig.len() ==> shift_ok(#[trigger] orig[i], 3),
            forall|i: int| 0 <= i < j ==> {
                let before = #[trigger] orig[i];
                let after = objects@[i];
                &&& after.rect.x == before.rect.x
                &&& after.rect.y == before.rect.y - d
                &&& after.rect.w == before.rect.w
                &&& after.rect.h == before.rect.h
                &&& after.rect.scale == before.rect.scale
                &&& after.solid == before.solid
            },
            forall|i: int| j <= i < orig.len() ==> objects@[i] == orig[i],
        decreases orig.len() - j,
    {
        proof {
            assert(objects@[j as int] == orig[j as int]);
            assert(shift_ok(orig[j as int], 3));
        }
        let mut o = objects[j];
        o.rect.y = o.rect.y - d;
        objects.set(j, o);
        j += 1;
    }
}

/// A player strictly inside all four viewport edges is left where it is and
/// the world does not scroll: running the update again in the same tick,
/// once the player no longer crosses any edge, shifts nothing further.
pub proof fn lemma_update_noop_inside(cam: Camera, p: Player)
    requires
        p.rect.x > cam.x,
        p.rect.y > cam.y,
        p.rect.x + p.rect.scale < cam.x + cam.w,
        p.rect.y + p.rect.scale < cam.y + cam.h,
    ensures
        cam.x_after(p) == p.rect.x,
        cam.y_after(p) == p.rect.y,
        cam.x_shift_total(p) == 0,
        cam.y_shift_total(p) == 0,
{
}

/// A player on the left viewport edge, clear of the other three edges, is
/// clamped to `cam.x` and the world scrolls horizontally exactly once: every
/// object's position changes by `-vel.x` (so it grows by `|vel.x|` when the
/// player pushes further left with a negative horizontal velocity).
pub proof fn lemma_scroll_left_edge(cam: Camera, p: Player)
    requires
        p.rect.x <= cam.x,
        p.rect.y > cam.y,
        p.rect.scale < cam.w,
        p.rect.y + p.rect.scale < cam.y + cam.h,
    ensures
        cam.x_after(p) == cam.x,
        cam.y_after(p) == p.rect.y,
        cam.x_shift_total(p) == p.vel.x,
        cam.y_shift_total(p) == 0,
{
}

} // verus!
