use platformer::collider::{Collider, Interact};
use platformer::libs::Rect;
use platformer::object::Object;

fn tile(x: i64, y: i64) -> Rect {
    Rect::new(x, y, 0, 0, 40_000)
}

fn solid(x: i64, y: i64) -> Object {
    Object::new(tile(x, y), true)
}

#[test]
fn no_overlap_returns_none() {
    let moving = tile(0, 0);
    let candidates = vec![solid(100_000, 0), solid(0, 100_000), solid(-100_000, -100_000)];
    assert_eq!(Collider::collision(&moving, &candidates), None);
}

#[test]
fn empty_candidates_return_none() {
    let moving = tile(0, 0);
    let candidates: Vec<Object> = Vec::new();
    assert_eq!(Collider::collision(&moving, &candidates), None);
}

#[test]
fn edge_contact_counts_as_overlap() {
    let moving = tile(0, 0);
    // Touching edges exactly: the broad check uses inclusive comparisons.
    let touching = vec![solid(40_000, 0)];
    assert!(Collider::collision(&moving, &touching).is_some());
    let apart = vec![solid(40_001, 0)];
    assert_eq!(Collider::collision(&moving, &apart), None);
}

#[test]
fn top_side_snaps_to_candidate_bottom() {
    // Moving box below the candidate's center, vertical offset dominating.
    let moving = tile(0, 30_000);
    let candidates = vec![solid(0, 0)];
    assert_eq!(
        Collider::collision(&moving, &candidates),
        Some((Interact::TOP, 40_000))
    );
}

#[test]
fn bottom_side_snaps_above_candidate_top() {
    let moving = tile(0, -30_000);
    let candidates = vec![solid(0, 0)];
    assert_eq!(
        Collider::collision(&moving, &candidates),
        Some((Interact::BOTTOM, -40_000))
    );
}

#[test]
fn left_side_snaps_to_candidate_right() {
    let moving = tile(30_000, 0);
    let candidates = vec![solid(0, 0)];
    assert_eq!(
        Collider::collision(&moving, &candidates),
        Some((Interact::LEFT, 40_000))
    );
}

#[test]
fn right_side_snaps_to_candidate_left() {
    let moving = tile(-30_000, 0);
    let candidates = vec![solid(0, 0)];
    assert_eq!(
        Collider::collision(&moving, &candidates),
        Some((Interact::RIGHT, -40_000))
    );
}

#[test]
fn zero_offset_ties_go_horizontal_and_right() {
    // Coincident centers: dy*dy > dx*dx is false, dx > 0 is false.
    let moving = tile(0, 0);
    let candidates = vec![solid(0, 0)];
    assert_eq!(
        Collider::collision(&moving, &candidates),
        Some((Interact::RIGHT, -40_000))
    );
}

#[test]
fn equal_magnitudes_tie_goes_horizontal() {
    // |dy| == |dx| != 0: the vertical branch needs a strictly larger square.
    let moving = tile(20_000, 20_000);
    let candidates = vec![solid(0, 0)];
    assert_eq!(
        Collider::collision(&moving, &candidates),
        Some((Interact::LEFT, 40_000))
    );
}

#[test]
fn vertical_tie_at_zero_goes_bottom() {
    // Vertical axis dominates but dy == 0 is impossible; dy < 0 picks BOTTOM,
    // and dy > 0 picks TOP, with the boundary dy <= 0 on the BOTTOM side.
    let moving = Rect::new(1000, -30_000, 0, 0, 40_000);
    let candidates = vec![solid(0, 0)];
    assert_eq!(
        Collider::collision(&moving, &candidates),
        Some((Interact::BOTTOM, -40_000))
    );
}

#[test]
fn first_overlapping_solid_wins() {
    let moving = tile(0, 30_000);
    let first = solid(0, 0);
    let second = solid(0, 60_000);
    let one_way = vec![first, second];
    assert_eq!(
        Collider::collision(&moving, &one_way),
        Some((Interact::TOP, 40_000))
    );
    let other_way = vec![second, first];
    assert_eq!(
        Collider::collision(&moving, &other_way),
        Some((Interact::BOTTOM, 20_000))
    );
}

#[test]
fn non_solid_candidates_are_skipped() {
    let moving = tile(0, 30_000);
    let decoration = Object::new(tile(0, 0), false);
    let ground = solid(0, 60_000);
    let candidates = vec![decoration, ground];
    assert_eq!(
        Collider::collision(&moving, &candidates),
        Some((Interact::BOTTOM, 20_000))
    );
    let only_decoration = vec![decoration];
    assert_eq!(Collider::collision(&moving, &only_decoration), None);
}

#[test]
fn insets_shrink_the_hitbox() {
    // With a 5.0-unit horizontal inset the boxes no longer touch.
    let moving = Rect::new(0, 0, 5000, 0, 40_000);
    let touching = vec![solid(40_000, 0)];
    assert!(Collider::collision(&moving, &touching).is_none());
    let closer = vec![solid(30_000, 0)];
    assert!(Collider::collision(&moving, &closer).is_some());
}
