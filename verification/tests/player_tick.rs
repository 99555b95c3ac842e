use platformer::libs::{Controller, Rect};
use platformer::object::Object;
use platformer::player::Player;

const DT: i64 = 17;

fn no_input() -> Controller {
    Controller::new()
}

fn fresh_player() -> Player {
    Player::new(Rect::new(0, 0, 5000, 0, 40_000))
}

fn ground_at(x: i64, y: i64) -> Object {
    Object::new(Rect::new(x, y, 0, 0, 40_000), true)
}

#[test]
fn new_player_is_at_rest() {
    let p = fresh_player();
    assert!(!p.ground);
    assert!(!p.flip);
    assert_eq!((p.vel.x, p.vel.y), (0, 0));
    assert_eq!((p.acc.x, p.acc.y), (0, 0));
    assert_eq!(p.friction, 2);
    assert_eq!(p.rect.x, 0);
    assert_eq!(p.rect.y, 0);
}

#[test]
fn free_fall_accelerates_by_gravity() {
    let mut p = fresh_player();
    let tiles: Vec<Object> = Vec::new();
    p.update(DT, no_input(), &tiles);
    // vel.y += 20_000 * 17 / 1000; the position moves by the new velocity.
    assert_eq!(p.vel.y, 340);
    assert_eq!(p.rect.y, 340);
    assert_eq!(p.vel.x, 0);
    assert_eq!(p.rect.x, 0);
    assert_eq!(p.acc.y, 20_000);
    assert!(!p.ground);
    p.update(DT, no_input(), &tiles);
    assert_eq!(p.vel.y, 680);
    assert_eq!(p.rect.y, 1020);
}

#[test]
fn right_press_accelerates_by_accel_times_dt() {
    let mut p = fresh_player();
    let tiles: Vec<Object> = Vec::new();
    let input = Controller { up: false, left: false, right: true };
    p.update(DT, input, &tiles);
    // From rest the friction term is zero, so one tick gives exactly
    // accel * dt: within (inclusive) 0 and accel * dt, not reversed.
    assert_eq!(p.vel.x, 170);
    assert!(0 <= p.vel.x && p.vel.x <= 10_000 * DT / 1000);
    assert_eq!(p.rect.x, 170);
    assert_eq!(p.acc.x, 10_000);
    assert!(!p.flip);
}

#[test]
fn left_press_flips_the_sprite() {
    let mut p = fresh_player();
    let tiles: Vec<Object> = Vec::new();
    let input = Controller { up: false, left: true, right: false };
    p.update(DT, input, &tiles);
    assert_eq!(p.vel.x, -170);
    assert!(p.flip);
}

#[test]
fn right_wins_when_both_directions_pressed() {
    let mut p = fresh_player();
    let tiles: Vec<Object> = Vec::new();
    let input = Controller { up: false, left: true, right: true };
    p.update(DT, input, &tiles);
    assert_eq!(p.vel.x, 170);
    assert_eq!(p.acc.x, 10_000);
    assert!(!p.flip);
}

#[test]
fn friction_damps_existing_speed() {
    let mut p = fresh_player();
    p.vel.x = 1000;
    let tiles: Vec<Object> = Vec::new();
    p.update(DT, no_input(), &tiles);
    // acc.x = -2 * 1000; vel.x += -2000 * 17 / 1000 (truncated).
    assert_eq!(p.acc.x, -2000);
    assert_eq!(p.vel.x, 966);
    assert_eq!(p.rect.x, 966);
}

#[test]
fn resting_on_ground_keeps_place_up_to_one_gravity_step() {
    // The player's box sits exactly on the tile's top surface. The collision
    // reports BOTTOM: ground is set, the vertical velocity is zeroed and the
    // box snapped; the integration then adds one step of gravity back, so
    // the tick ends with vel == (0, 340), not (0, 0).
    let mut p = fresh_player();
    let tiles = vec![ground_at(0, 40_000)];
    p.update(DT, no_input(), &tiles);
    assert!(p.ground);
    assert_eq!(p.vel.x, 0);
    assert_eq!(p.vel.y, 340);
    assert_eq!(p.rect.x, 0);
    assert_eq!(p.rect.y, 340);
}

#[test]
fn jump_from_ground_sets_upward_velocity() {
    let mut p = fresh_player();
    let tiles = vec![ground_at(0, 40_000)];
    let input = Controller { up: true, left: false, right: false };
    p.update(DT, input, &tiles);
    // vel.y = -10_000 from the jump, plus one gravity step.
    assert!(!p.ground);
    assert_eq!(p.vel.y, -9660);
    assert_eq!(p.rect.y, -9660);
}

#[test]
fn jump_in_the_air_does_nothing() {
    let mut p = fresh_player();
    let tiles: Vec<Object> = Vec::new();
    let input = Controller { up: true, left: false, right: false };
    p.update(DT, input, &tiles);
    assert_eq!(p.vel.y, 340);
    assert!(!p.ground);
}

#[test]
fn side_collision_zeroes_horizontal_velocity() {
    let mut p = fresh_player();
    // A tile overlapping from the right: horizontal offset dominates.
    p.rect.x = -30_000;
    p.rect.w = 0;
    p.vel.x = 500;
    let tiles = vec![ground_at(0, 0)];
    p.update(DT, no_input(), &tiles);
    // RIGHT: snap x to tile.left - scale, zero vel.x, then integrate.
    // acc.x = 0 after the zeroed velocity, so only gravity moves the box.
    assert!(!p.ground);
    assert_eq!(p.vel.x, 0);
    assert_eq!(p.rect.x, -40_000);
    assert_eq!(p.vel.y, 340);
}

#[test]
fn ceiling_collision_zeroes_upward_velocity() {
    let mut p = fresh_player();
    // A tile overlapping from above: TOP, snap to the tile's bottom edge.
    p.rect.y = 30_000;
    p.vel.y = -500;
    let tiles = vec![ground_at(0, 0)];
    p.update(DT, no_input(), &tiles);
    assert!(!p.ground);
    // Snap to 40_000, zero vel.y, then one gravity step.
    assert_eq!(p.vel.y, 340);
    assert_eq!(p.rect.y, 40_340);
}
