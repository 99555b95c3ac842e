//! Level building: turn the parsed tilemap grid into the world's object
//! collection, size the camera from the window and the map, and place the
//! player's spawn box. Texture loading and drawing stay with the caller.

use vstd::prelude::*;
use crate::camera::Camera;
use crate::libs::{Rect, MAP_LIMIT, POS_LIMIT, TILE_SIZE, VIEW_SIZE, PLAYER_INSET};
use crate::object::Object;

verus! {

/// Whether a tile code yields an object, and whether that object is solid:
/// ground and the two brick kinds collide, a cloud is decoration.
pub open spec fn tile_solid(c: char) -> Option<bool> {
    if c == '1' || c == '2' || c == '?' {
        Some(true)
    } else if c == '@' {
        Some(false)
    } else {
        None
    }
}

/// The objects one grid cell contributes: a full-tile square at the cell's
/// world position, or nothing for an unrecognized code.
pub open spec fn cell_objects(code: char, r: int, c: int) -> Seq<Object> {
    match tile_solid(code) {
        Some(solid) => seq![
            Object {
                solid,
                rect: Rect {
                    x: (c * TILE_SIZE) as i64,
                    y: (r * TILE_SIZE) as i64,
                    w: 0,
                    h: 0,
                    scale: TILE_SIZE,
                },
            },
        ],
        None => Seq::empty(),
    }
}

/// The objects of row `r`'s first `c` cells, in column order.
pub open spec fn row_objects_upto(line: Seq<char>, r: int, c: int) -> Seq<Object>
    decreases c,
{
    if c <= 0 {
        Seq::empty()
    } else {
        row_objects_upto(line, r, c - 1) + cell_objects(line[c - 1], r, c - 1)
    }
}

/// The objects of the map's first `r` rows, in row-major order.
pub open spec fn map_objects_upto(map: Seq<Seq<char>>, r: int) -> Seq<Object>
    decreases r,
{
    if r <= 0 {
        Seq::empty()
    } else {
        map_objects_upto(map, r - 1)
            + row_objects_upto(map[r - 1], r - 1, map[r - 1].len() as int)
    }
}

/// All objects of the map, scanned row by row, column by column.
pub open spec fn map_objects(map: Seq<Seq<char>>) -> Seq<Object> {
    map_objects_upto(map, map.len() as int)
}

/// Build the world's object collection from the tile grid: one full-tile
/// object per recognized code, in scan order.
pub fn build_objects(map: &Vec<Vec<char>>) -> (objects: Vec<Object>)
    requires
        map@.len() <= MAP_LIMIT,
        forall|r: int| 0 <= r < map@.len() ==> (#[trigger] map@[r])@.len() <= MAP_LIMIT,
    ensures
        objects@ == map_objects(map.deep_view()),
        forall|i: int| 0 <= i < objects@.len() ==> (#[trigger] objects@[i]).rect.wf(),
{
    let ghost dv = map.deep_view();
    let mut objects: Vec<Object> = Vec::new();
    let mut r: usize = 0;
    proof {
        assert(objects@ =~= map_objects_upto(dv, 0));
    }
    while r < map.len()
        invariant
            dv == map.deep_view(),
            dv.len() == map@.len() <= MAP_LIMIT,
            forall|k: int| 0 <= k < map@.len() ==> (#[trigger] map@[k])@.len() <= MAP_LIMIT,
            r <= map@.len(),
            objects@ == map_objects_upto(dv, r as int),
            forall|i: int| 0 <= i < objects@.len() ==> (#[trigger] objects@[i]).rect.wf(),
        decreases map@.len() - r,
    {
        let row = &map[r];
        let mut c: usize = 0;
        proof {
            assert(objects@ =~= map_objects_upto(dv, r as int) + row_objects_upto(
                dv[r as int], r as int, 0,
            ));
        }
        while c < row.len()
            invariant
                dv == map.deep_view(),
                dv.len() == map@.len() <= MAP_LIMIT,
                r < map@.len(),
                row == &map[r as int],
                row@.len() == dv[r as int].len() <= MAP_LIMIT,
                c <= row@.len(),
                objects@ == map_objects_upto(dv, r as int) + row_objects_upto(
                    dv[r as int], r as int, c as int,
                ),
                forall|i: int| 0 <= i < objects@.len() ==> (#[trigger] objects@[i]).rect.wf(),
            decreases row@.len() - c,
        {
            let code = row[c];
            proof {
                assert(dv[r as int][c as int] == code);
            }
            let ghost before = objects@;
            if code == '1' || code == '2' || code == '?' {
                let rect = Rect::new(
                    (c as i64) * TILE_SIZE,
                    (r as i64) * TILE_SIZE,
                    0,
                    0,
                    TILE_SIZE,
                );
                objects.push(Object::new(rect, true));
            } else if code == '@' {
                let rect = Rect::new(
                    (c as i64) * TILE_SIZE,
                    (r as i64) * TILE_SIZE,
                    0,
                    0,
                    TILE_SIZE,
                );
                objects.push(Object::new(rect, false));
            }
            proof {
                assert(objects@ =~= before + cell_objects(code, r as int, c as int));
                assert(before + cell_objects(dv[r as int][c as int], r as int, c as int)
                    =~= map_objects_upto(dv, r as int) + row_objects_upto(
                        dv[r as int], r as int, c as int + 1,
                    ));
            }
            c += 1;
        }
        proof {
            assert(objects@ =~= map_objects_upto(dv, r as int + 1));
        }
        r += 1;
    }
    objects
}

/// Size the camera from the window and the map: a fixed square viewport
/// centered on the window, and world bounds of one tile per grid cell. The
/// map must have at least one row.
pub fn camera_for(map: &Vec<Vec<char>>, width: u64, height: u64) -> (cam: Camera)
    requires
        map@.len() > 0,
        map@.len() <= MAP_LIMIT,
        map@[0]@.len() <= MAP_LIMIT,
        width <= POS_LIMIT,
        height <= POS_LIMIT,
    ensures
        cam.x == width / 2 - 50_000,
        cam.y == height / 2 - 50_000,
        cam.w == VIEW_SIZE,
        cam.h == VIEW_SIZE,
        cam.max_w == map@[0]@.len() * TILE_SIZE,
        cam.max_h == map@.len() * TILE_SIZE,
        cam.wf(),
{
    let max_w = (map[0].len() as i64) * TILE_SIZE;
    let max_h = (map.len() as i64) * TILE_SIZE;
    let cam_x = ((width / 2) as i64) - 50_000;
    let cam_y = ((height / 2) as i64) - 50_000;
    Camera::new(cam_x, cam_y, VIEW_SIZE, VIEW_SIZE, max_w, max_h)
}

/// The player's spawn box at the map origin: a full tile with the loader's
/// slim horizontal hitbox inset.
pub fn spawn_rect() -> (r: Rect)
    ensures
        r == (Rect { x: 0, y: 0, w: PLAYER_INSET, h: 0, scale: TILE_SIZE }),
        r.wf(),
{
    Rect::new(0, 0, PLAYER_INSET, 0, TILE_SIZE)
}

} // verus!
