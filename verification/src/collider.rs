//! Single-axis overlap resolution: find the first solid candidate the moving
//! box overlaps and classify the contact side, with the coordinate the moving
//! box must snap to.

use vstd::prelude::*;
use crate::libs::{Rect, POS_LIMIT, SCALE_LIMIT};
use crate::object::Object;

verus! {

/// Which side of the moving box made contact, seen from the moving box:
/// `TOP` means the moving box's top edge hit the candidate above it.
#[derive(Clone, Copy, PartialEq, Eq, Structural, Debug)]
pub enum Interact {
    LEFT,
    RIGHT,
    TOP,
    BOTTOM,
}

/// Twice the horizontal offset from the candidate's center to the moving
/// box's center. Doubling keeps the half-`scale` in the center exact in
/// integers; comparisons of doubled offsets agree with comparisons of the
/// true center offsets.
pub open spec fn off_x(m: Rect, c: Rect) -> int {
    (2 * m.x + m.scale) - (2 * c.x + c.scale)
}

/// Twice the vertical offset from the candidate's center to the moving box's
/// center.
pub open spec fn off_y(m: Rect, c: Rect) -> int {
    (2 * m.y + m.scale) - (2 * c.y + c.scale)
}

/// The two boxes' hit-test edges overlap on both axes (edge contact counts).
pub open spec fn overlaps(m: Rect, c: Rect) -> bool {
    &&& m.spec_right() >= c.spec_left()
    &&& m.spec_left() <= c.spec_right()
    &&& m.spec_bottom() >= c.spec_top()
    &&& m.spec_top() <= c.spec_bottom()
}

/// The moving box collides with this candidate: it is solid and overlaps.
pub open spec fn hits(m: Rect, o: Object) -> bool {
    o.solid && overlaps(m, o.rect)
}

/// Side classification and snap coordinate for an overlapping pair.
/// The axis with the larger center offset wins; ties go to the horizontal
/// axis. Within the axis the sign of the offset picks the side, with the
/// zero offset going to `BOTTOM` vertically and `RIGHT` horizontally.
pub open spec fn classify(m: Rect, c: Rect) -> (Interact, int) {
    if off_y(m, c) * off_y(m, c) > off_x(m, c) * off_x(m, c) {
        if off_y(m, c) > 0 {
            (Interact::TOP, c.spec_bottom())
        } else {
            (Interact::BOTTOM, c.spec_top() - m.scale)
        }
    } else {
        if off_x(m, c) > 0 {
            (Interact::LEFT, c.spec_right())
        } else {
            (Interact::RIGHT, c.spec_left() - m.scale)
        }
    }
}

/// Result of scanning the candidates in collection order: the classification
/// of the first solid overlapping one, or `None` when no candidate collides.
pub open spec fn first_hit(m: Rect, objs: Seq<Object>) -> Option<(Interact, int)>
    decreases objs.len(),
{
    if objs.len() <= 0 {
        None
    } else if hits(m, objs[0]) {
        Some(classify(m, objs[0].rect))
    } else {
        first_hit(m, objs.drop_first())
    }
}

/// Lift the executable result to the mathematical one.
pub open spec fn lift_hit(r: Option<(Interact, i64)>) -> Option<(Interact, int)> {
    match r {
        None => None,
        Some((side, snap)) => Some((side, snap as int)),
    }
}

/// Skipping a prefix without any collision does not change the scan result.
pub proof fn lemma_first_hit_skip(m: Rect, objs: Seq<Object>, i: int)
    requires
        0 <= i <= objs.len(),
        forall|j: int| 0 <= j < i ==> !hits(m, objs[j]),
    ensures
        first_hit(m, objs) == first_hit(m, objs.skip(i)),
    decreases i,
{
    if i > 0 {
        lemma_first_hit_skip(m, objs, i - 1);
        assert(objs.skip(i - 1)[0] == objs[i - 1]);
        assert(objs.skip(i - 1).drop_first() =~= objs.skip(i));
    } else {
        assert(objs.skip(0) =~= objs);
    }
}

/// The scan returns the classification of the first colliding candidate.
pub proof fn lemma_first_hit_finds(m: Rect, objs: Seq<Object>, i: int)
    requires
        0 <= i < objs.len(),
        forall|j: int| 0 <= j < i ==> !hits(m, objs[j]),
        hits(m, objs[i]),
    ensures
        first_hit(m, objs) == Some(classify(m, objs[i].rect)),
{
    lemma_first_hit_skip(m, objs, i);
    assert(objs.skip(i)[0] == objs[i]);
}

/// A moving box that overlaps no candidate collides with nothing: the scan
/// returns `None`, whether or not the candidates are solid.
pub proof fn lemma_collision_none(m: Rect, objs: Seq<Object>)
    requires
        forall|i: int| 0 <= i < objs.len() ==> !overlaps(m, objs[i].rect),
    ensures
        first_hit(m, objs) is None,
{
    lemma_first_hit_skip(m, objs, objs.len() as int);
    assert(objs.skip(objs.len() as int).len() == 0);
}

/// A snap coordinate produced by the scan lies within the candidates'
/// coordinate range widened by at most two side lengths.
pub proof fn lemma_first_hit_in_range(m: Rect, objs: Seq<Object>)
    requires
        m.wf(),
        forall|i: int| 0 <= i < objs.len() ==> (#[trigger] objs[i]).rect.wf(),
    ensures
        match first_hit(m, objs) {
            Some((_, snap)) => -(POS_LIMIT + 2 * SCALE_LIMIT) <= snap <= POS_LIMIT + SCALE_LIMIT,
            None => true,
        },
    decreases objs.len(),
{
    if objs.len() > 0 && !hits(m, objs[0]) {
        assert(forall|i: int| 0 <= i < objs.drop_first().len()
            ==> (#[trigger] objs.drop_first()[i]).rect.wf());
        lemma_first_hit_in_range(m, objs.drop_first());
    }
}

/// An overlapping pair whose vertical center offset dominates, with the
/// moving box below the candidate's center, is classified `TOP`, snapping to
/// the candidate's bottom edge.
pub proof fn lemma_classify_top(m: Rect, c: Rect)
    requires
        overlaps(m, c),
        off_y(m, c) * off_y(m, c) > off_x(m, c) * off_x(m, c),
        off_y(m, c) > 0,
    ensures
        classify(m, c) == (Interact::TOP, c.spec_bottom()),
{
}

/// The vertically dominated pair with the moving box at or above the
/// candidate's center (the zero offset included) is classified `BOTTOM`,
/// snapping the moving box's bottom to the candidate's top edge.
pub proof fn lemma_classify_bottom(m: Rect, c: Rect)
    requires
        overlaps(m, c),
        off_y(m, c) * off_y(m, c) > off_x(m, c) * off_x(m, c),
        off_y(m, c) <= 0,
    ensures
        classify(m, c) == (Interact::BOTTOM, c.spec_top() - m.scale),
{
}

/// A pair whose horizontal offset is at least as large as the vertical one
/// (ties included), with the moving box right of the candidate's center, is
/// classified `LEFT`, snapping to the candidate's right edge.
pub proof fn lemma_classify_left(m: Rect, c: Rect)
    requires
        overlaps(m, c),
        off_y(m, c) * off_y(m, c) <= off_x(m, c) * off_x(m, c),
        off_x(m, c) > 0,
    ensures
        classify(m, c) == (Interact::LEFT, c.spec_right()),
{
}

/// The horizontal case with the moving box at or left of the candidate's
/// center (the zero offset included) is classified `RIGHT`, snapping the
/// moving box's right side to the candidate's left edge.
pub proof fn lemma_classify_right(m: Rect, c: Rect)
    requires
        overlaps(m, c),
        off_y(m, c) * off_y(m, c) <= off_x(m, c) * off_x(m, c),
        off_x(m, c) <= 0,
    ensures
        classify(m, c) == (Interact::RIGHT, c.spec_left() - m.scale),
{
}

/// Comparing magnitudes of the doubled offsets agrees with comparing their
/// squares, which is how the classification spec phrases the tie-break.
proof fn lemma_abs_square(a: int, b: int, abs_a: int, abs_b: int)
    by (nonlinear_arith)
    requires
        abs_a == if a >= 0 { a } else { -a },
        abs_b == if b >= 0 { b } else { -b },
    ensures
        (abs_a > abs_b) == (a * a > b * b),
{
}

/// Stateless collision resolver.
pub struct Collider {}

impl Collider {
    /// Scan the candidates in collection order and return the side and snap
    /// coordinate for the first solid overlapping one, `None` when nothing
    /// collides.
    pub fn collision(moving: &Rect, candidates: &Vec<Object>) -> (r: Option<(Interact, i64)>)
        requires
            moving.wf(),
            forall|i: int| 0 <= i < candidates@.len() ==> (#[trigger] candidates@[i]).rect.wf(),
        ensures
            lift_hit(r) == first_hit(*moving, candidates@),
    {
        let mut i: usize = 0;
        while i < candidates.len()
            invariant
                0 <= i <= candidates@.len(),
                moving.wf(),
                forall|j: int| 0 <= j < candidates@.len() ==> (#[trigger] candidates@[j]).rect.wf(),
                forall|j: int| 0 <= j < i ==> !hits(*moving, candidates@[j]),
            decreases candidates@.len() - i,
        {
            let o = candidates[i];
            if o.solid {
                if moving.right() >= o.rect.left() && moving.left() <= o.rect.right()
                    && moving.bottom() >= o.rect.top() && moving.top() <= o.rect.bottom() {
                    let dx: i64 = (2 * moving.x + moving.scale) - (2 * o.rect.x + o.rect.scale);
                    let dy: i64 = (2 * moving.y + moving.scale) - (2 * o.rect.y + o.rect.scale);
                    let abs_dx: i64 = if dx >= 0 { dx } else { -dx };
                    let abs_dy: i64 = if dy >= 0 { dy } else { -dy };
                    proof {
                        lemma_abs_square(dy as int, dx as int, abs_dy as int, abs_dx as int);
                        lemma_first_hit_finds(*moving, candidates@, i as int);
                    }
                    if abs_dy > abs_dx {
                        if dy > 0 {
                            return Some((Interact::TOP, o.rect.bottom()));
                        } else {
                            return Some((Interact::BOTTOM, o.rect.top() - moving.scale));
                        }
                    } else {
                        if dx > 0 {
                            return Some((Interact::LEFT, o.rect.right()));
                        } else {
                            return Some((Interact::RIGHT, o.rect.left() - moving.scale));
                        }
                    }
                }
            }
            i += 1;
        }
        proof {
            lemma_first_hit_skip(*moving, candidates@, candidates@.len() as int);
            assert(candidates@.skip(candidates@.len() as int).len() == 0);
        }
        None
    }
}

} // verus!
