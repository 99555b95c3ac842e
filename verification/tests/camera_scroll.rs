use platformer::camera::Camera;
use platformer::libs::Rect;
use platformer::object::Object;
use platformer::player::Player;

fn viewport() -> Camera {
    Camera::new(0, 0, 100_000, 100_000, 400_000, 200_000)
}

fn player_at(x: i64, y: i64) -> Player {
    Player::new(Rect::new(x, y, 0, 0, 40_000))
}

fn world() -> Vec<Object> {
    vec![
        Object::new(Rect::new(80_000, 0, 0, 0, 40_000), true),
        Object::new(Rect::new(120_000, -40_000, 0, 0, 40_000), false),
    ]
}

#[test]
fn left_edge_scrolls_world_by_velocity() {
    let cam = viewport();
    let mut player = player_at(0, 50_000);
    player.vel.x = -500;
    let mut objects = world();
    cam.update(&mut player, &mut objects);
    // The player is clamped to the edge; every object's x changes by exactly
    // -vel.x, so it grows by |vel.x| while the player pushes left.
    assert_eq!(player.rect.x, 0);
    assert_eq!(player.rect.y, 50_000);
    assert_eq!(objects[0].rect.x, 80_500);
    assert_eq!(objects[1].rect.x, 120_500);
    assert_eq!(objects[0].rect.y, 0);
    assert_eq!(objects[1].rect.y, -40_000);
    // The player's own velocity is untouched.
    assert_eq!(player.vel.x, -500);
}

#[test]
fn right_edge_clamps_and_scrolls() {
    let cam = viewport();
    let mut player = player_at(70_000, 50_000);
    player.vel.x = 700;
    let mut objects = world();
    cam.update(&mut player, &mut objects);
    assert_eq!(player.rect.x, 60_000);
    assert_eq!(objects[0].rect.x, 79_300);
    assert_eq!(objects[1].rect.x, 119_300);
}

#[test]
fn top_edge_clamps_and_scrolls() {
    let cam = viewport();
    let mut player = player_at(50_000, -1000);
    player.vel.y = -900;
    let mut objects = world();
    cam.update(&mut player, &mut objects);
    assert_eq!(player.rect.y, 0);
    assert_eq!(objects[0].rect.y, 900);
    assert_eq!(objects[1].rect.y, -39_100);
    assert_eq!(objects[0].rect.x, 80_000);
}

#[test]
fn bottom_edge_clamps_and_scrolls() {
    let cam = viewport();
    let mut player = player_at(50_000, 70_000);
    player.vel.y = 800;
    let mut objects = world();
    cam.update(&mut player, &mut objects);
    assert_eq!(player.rect.y, 60_000);
    assert_eq!(objects[0].rect.y, -800);
    assert_eq!(objects[1].rect.y, -40_800);
}

#[test]
fn inside_viewport_nothing_moves() {
    let cam = viewport();
    let mut player = player_at(30_000, 30_000);
    player.vel.x = -500;
    player.vel.y = 800;
    let mut objects = world();
    cam.update(&mut player, &mut objects);
    assert_eq!(player.rect.x, 30_000);
    assert_eq!(player.rect.y, 30_000);
    assert_eq!(objects[0].rect.x, 80_000);
    assert_eq!(objects[0].rect.y, 0);
    // A second call in the same tick, with the player strictly inside every
    // edge, shifts nothing further.
    cam.update(&mut player, &mut objects);
    assert_eq!(player.rect.x, 30_000);
    assert_eq!(player.rect.y, 30_000);
    assert_eq!(objects[0].rect.x, 80_000);
    assert_eq!(objects[0].rect.y, 0);
    assert_eq!(objects[1].rect.x, 120_000);
    assert_eq!(objects[1].rect.y, -40_000);
}

#[test]
fn edge_contact_still_scrolls_on_a_second_call() {
    // The edge checks are inclusive: a player clamped exactly onto the left
    // edge still counts as crossing it, so a second call scrolls again.
    let cam = viewport();
    let mut player = player_at(-2000, 50_000);
    player.vel.x = -500;
    let mut objects = world();
    cam.update(&mut player, &mut objects);
    assert_eq!(player.rect.x, 0);
    assert_eq!(objects[0].rect.x, 80_500);
    cam.update(&mut player, &mut objects);
    assert_eq!(player.rect.x, 0);
    assert_eq!(objects[0].rect.x, 81_000);
}

#[test]
fn corner_shifts_both_axes() {
    let cam = viewport();
    let mut player = player_at(-1000, -1000);
    player.vel.x = -300;
    player.vel.y = -400;
    let mut objects = world();
    cam.update(&mut player, &mut objects);
    assert_eq!(player.rect.x, 0);
    assert_eq!(player.rect.y, 0);
    assert_eq!(objects[0].rect.x, 80_300);
    assert_eq!(objects[0].rect.y, 400);
}

#[test]
fn box_wider_than_viewport_scrolls_twice() {
    // Left and right edges both trigger; the right clamp wins the position
    // and the world scrolls horizontally twice.
    let cam = Camera::new(0, 0, 30_000, 100_000, 400_000, 200_000);
    let mut player = player_at(0, 50_000);
    player.vel.x = -500;
    let mut objects = world();
    cam.update(&mut player, &mut objects);
    assert_eq!(player.rect.x, -10_000);
    assert_eq!(objects[0].rect.x, 81_000);
}
