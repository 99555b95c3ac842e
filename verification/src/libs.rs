//! Basic value types of the engine: 2-d vectors, axis-aligned boxes with
//! inset margins, the tilemap text parser, and the per-tick input intents.

use vstd::prelude::*;

verus! {

/// Fixed-point steps per world unit (and per second, for time deltas).
pub const UNIT: i64 = 1000;

/// Largest magnitude allowed for a position coordinate handed to the engine.
pub const POS_LIMIT: i64 = 1_000_000_000_000_000;

/// Largest side length (`scale`) of a box.
pub const SCALE_LIMIT: i64 = 1_000_000_000;

/// Largest magnitude allowed for a velocity or acceleration component handed
/// to the engine.
pub const VEL_LIMIT: i64 = 1_000_000_000_000;

/// Largest time delta, in milliseconds, accepted for one tick.
pub const DT_LIMIT: i64 = 1000;

/// Largest velocity-proportional friction factor.
pub const FRICTION_LIMIT: i64 = 1000;

/// Largest number of tilemap rows, and of columns per row, the level
/// builder accepts.
pub const MAP_LIMIT: i64 = 10_000;

/// World side length of one tile (40.0 units).
pub const TILE_SIZE: i64 = 40_000;

/// Side length of the camera's viewport square (100.0 units).
pub const VIEW_SIZE: i64 = 100_000;

/// Horizontal hitbox inset of the player's sprite (5.0 units).
pub const PLAYER_INSET: i64 = 5000;

/// A 2-d vector of fixed-point components, used for velocity and acceleration.
#[derive(Clone, Copy, PartialEq, Eq, Structural, Debug)]
pub struct Vec2d {
    pub x: i64,
    pub y: i64,
}

impl Vec2d {
    /// The zero vector.
    pub fn new() -> (v: Vec2d)
        ensures
            v.x == 0,
            v.y == 0,
    {
        Vec2d { x: 0, y: 0 }
    }

    /// Componentwise addition in place.
    pub fn add(&mut self, x: i64, y: i64)
        requires
            i64::MIN <= old(self).x + x <= i64::MAX,
            i64::MIN <= old(self).y + y <= i64::MAX,
        ensures
            final(self).x == old(self).x + x,
            final(self).y == old(self).y + y,
    {
        self.x += x;
        self.y += y;
    }
}

/// An axis-aligned square box: top-left position `(x, y)`, uniform side
/// length `scale`, and inward margins `w` and `h` subtracted from the
/// hit-test edges (margins, not width and height).
#[derive(Clone, Copy, PartialEq, Eq, Structural, Debug)]
pub struct Rect {
    pub x: i64,
    pub y: i64,
    pub w: i64,
    pub h: i64,
    pub scale: i64,
}

impl Rect {
    /// The side length is positive and the insets take at most half of it,
    /// so that `left <= right` and `top <= bottom`.
    pub open spec fn dims_ok(self) -> bool {
        &&& 0 < self.scale <= SCALE_LIMIT
        &&& 0 <= self.w
        &&& 2 * self.w <= self.scale
        &&& 0 <= self.h
        &&& 2 * self.h <= self.scale
    }

    /// Both coordinates are within the range the engine accepts.
    pub open spec fn pos_ok(self) -> bool {
        &&& -POS_LIMIT <= self.x <= POS_LIMIT
        &&& -POS_LIMIT <= self.y <= POS_LIMIT
    }

    pub open spec fn wf(self) -> bool {
        self.dims_ok() && self.pos_ok()
    }

    pub open spec fn spec_left(self) -> int {
        self.x + self.w
    }

    pub open spec fn spec_right(self) -> int {
        self.x + self.scale - self.w
    }

    pub open spec fn spec_top(self) -> int {
        self.y + self.h
    }

    pub open spec fn spec_bottom(self) -> int {
        self.y + self.scale - self.h
    }

    pub fn new(x: i64, y: i64, w: i64, h: i64, scale: i64) -> (r: Rect)
        requires
            -POS_LIMIT <= x <= POS_LIMIT,
            -POS_LIMIT <= y <= POS_LIMIT,
            0 < scale <= SCALE_LIMIT,
            0 <= w,
            2 * w <= scale,
            0 <= h,
            2 * h <= scale,
        ensures
            r == (Rect { x, y, w, h, scale }),
            r.wf(),
    {
        Rect { x, y, w, h, scale }
    }

    /// Left hit-test edge: `x` plus the horizontal inset.
    pub fn left(&self) -> (r: i64)
        requires
            self.wf(),
        ensures
            r == self.spec_left(),
    {
        self.x + self.w
    }

    /// Right hit-test edge: `x + scale` minus the horizontal inset.
    pub fn right(&self) -> (r: i64)
        requires
            self.wf(),
        ensures
            r == self.spec_right(),
    {
        self.x + self.scale - self.w
    }

    /// Top hit-test edge: `y` plus the vertical inset.
    pub fn top(&self) -> (r: i64)
        requires
            self.wf(),
        ensures
            r == self.spec_top(),
    {
        self.y + self.h
    }

    /// Bottom hit-test edge: `y + scale` minus the vertical inset.
    pub fn bottom(&self) -> (r: i64)
        requires
            self.wf(),
        ensures
            r == self.spec_bottom(),
    {
        self.y + self.scale - self.h
    }

    /// Center of the square sprite, at `scale / 2` from the top-left corner
    /// on both axes (rounded down when `scale` is odd).
    pub fn center(&self) -> (c: Vec2d)
        requires
            self.wf(),
        ensures
            c.x == self.x + self.scale / 2,
            c.y == self.y + self.scale / 2,
    {
        let half: i64 = ((self.scale as u64) / 2) as i64;
        Vec2d { x: self.x + half, y: self.y + half }
    }
}

/// Index of the first newline in `s`, or `s.len()` when there is none.
pub open spec fn first_newline(s: Seq<char>) -> int
    decreases s.len(),
{
    if s.len() == 0 {
        0
    } else if s[0] == '\n' {
        0
    } else {
        1 + first_newline(s.drop_first())
    }
}

pub proof fn lemma_first_newline(s: Seq<char>)
    ensures
        0 <= first_newline(s) <= s.len(),
        first_newline(s) < s.len() ==> s[first_newline(s)] == '\n',
        forall|j: int| 0 <= j < first_newline(s) ==> s[j] != '\n',
    decreases s.len(),
{
    if s.len() > 0 && s[0] != '\n' {
        lemma_first_newline(s.drop_first());
        let f = first_newline(s);
        if f < s.len() {
            assert(s[f] == s.drop_first()[f - 1]);
        }
        assert forall|j: int| 0 <= j < f implies s[j] != '\n' by {
            if j > 0 {
                assert(s[j] == s.drop_first()[j - 1]);
            }
        }
    }
}

/// The first newline is exactly at `k` when nothing before `k` is one.
pub proof fn lemma_first_newline_at(s: Seq<char>, k: int)
    requires
        0 <= k < s.len(),
        forall|j: int| 0 <= j < k ==> s[j] != '\n',
        s[k] == '\n',
    ensures
        first_newline(s) == k,
    decreases k,
{
    if k > 0 {
        assert forall|j: int| 0 <= j < k - 1 implies s.drop_first()[j] != '\n' by {
            assert(s.drop_first()[j] == s[j + 1]);
        }
        assert(s.drop_first()[k - 1] == s[k]);
        lemma_first_newline_at(s.drop_first(), k - 1);
    }
}

/// A line with a trailing carriage return removed, as the line splitter does
/// for a carriage return standing immediately before the newline.
pub open spec fn chomp_cr(l: Seq<char>) -> Seq<char> {
    if l.len() > 0 && l[l.len() - 1] == '\r' {
        l.drop_last()
    } else {
        l
    }
}

/// The lines of `s`, as `str::lines` yields them: split at `'\n'`, each line
/// stripped of a carriage return immediately before its newline, and with no
/// final empty line when `s` ends in a newline.
pub open spec fn split_lines(s: Seq<char>) -> Seq<Seq<char>>
    decreases s.len(),
{
    if s.len() == 0 {
        Seq::empty()
    } else {
        proof {
            lemma_first_newline(s);
        }
        let i = first_newline(s);
        if i >= s.len() {
            seq![s]
        } else {
            seq![chomp_cr(s.take(i))] + split_lines(s.skip(i + 1))
        }
    }
}

/// Splitting a text that begins with a newline-terminated line yields that
/// line (with its carriage return chomped) followed by the rest's lines.
pub proof fn lemma_split_lines_step(row: Seq<char>, rest: Seq<char>)
    requires
        forall|j: int| 0 <= j < row.len() ==> row[j] != '\n',
    ensures
        split_lines(row + seq!['\n'] + rest) == seq![chomp_cr(row)] + split_lines(rest),
{
    let s = row + seq!['\n'] + rest;
    assert(s[row.len() as int] == '\n');
    assert forall|j: int| 0 <= j < row.len() implies s[j] != '\n' by {
        assert(s[j] == row[j]);
    }
    lemma_first_newline_at(s, row.len() as int);
    assert(s.take(row.len() as int) =~= row);
    assert(s.skip(row.len() as int + 1) =~= rest);
}

/// A text without any newline is one single line, or none when empty.
pub proof fn lemma_split_lines_last(row: Seq<char>)
    requires
        forall|j: int| 0 <= j < row.len() ==> row[j] != '\n',
    ensures
        row.len() == 0 ==> split_lines(row) == Seq::<Seq<char>>::empty(),
        row.len() > 0 ==> split_lines(row) == seq![row],
{
    lemma_first_newline(row);
}

/// The tilemap reader: turns the text of a map file into a grid of tile
/// codes, one row per line.
pub struct Tilemap {}

impl Tilemap {
    /// Parse the map text into its character grid: exactly the lines of the
    /// text, split as `str::lines` splits them.
    pub fn new(content: &str) -> (map: Vec<Vec<char>>)
        ensures
            map.deep_view() == split_lines(content@),
    {
        let n = content.unicode_len();
        let mut map: Vec<Vec<char>> = Vec::new();
        let mut row: Vec<char> = Vec::new();
        let mut i: usize = 0;
        proof {
            assert(map.deep_view() =~~= Seq::<Seq<char>>::empty());
            assert(row@ + content@.skip(0) =~= content@);
            assert(Seq::<Seq<char>>::empty() + split_lines(content@) =~= split_lines(content@));
        }
        while i < n
            invariant
                n == content@.len(),
                i <= n,
                forall|j: int| 0 <= j < row@.len() ==> row@[j] != '\n',
                split_lines(content@) == map.deep_view() + split_lines(
                    row@ + content@.skip(i as int),
                ),
            decreases n - i,
        {
            let ghost old_row = row@;
            let ghost old_dv = map.deep_view();
            let c = content.get_char(i);
            if c == '\n' {
                if row.len() > 0 && row[row.len() - 1] == '\r' {
                    row.pop();
                }
                proof {
                    assert(row@ =~= chomp_cr(old_row));
                }
                map.push(row);
                row = Vec::new();
                proof {
                    assert(map.deep_view() =~~= old_dv.push(chomp_cr(old_row)));
                    lemma_split_lines_step(old_row, content@.skip(i as int + 1));
                    assert(old_row + content@.skip(i as int)
                        =~= old_row + seq!['\n'] + content@.skip(i as int + 1));
                    assert(row@ + content@.skip(i as int + 1) =~= content@.skip(i as int + 1));
                    assert(old_dv.push(chomp_cr(old_row))
                        + split_lines(content@.skip(i as int + 1))
                        =~= old_dv + (seq![chomp_cr(old_row)]
                            + split_lines(content@.skip(i as int + 1))));
                }
            } else {
                row.push(c);
                proof {
                    assert(row@ + content@.skip(i as int + 1)
                        =~= old_row + content@.skip(i as int));
                }
            }
            i += 1;
        }
        proof {
            assert(row@ + content@.skip(n as int) =~= row@);
            lemma_split_lines_last(row@);
        }
        if row.len() > 0 {
            let ghost old_dv = map.deep_view();
            let ghost last_row = row@;
            map.push(row);
            proof {
                assert(map.deep_view() =~~= old_dv.push(last_row));
                assert(old_dv.push(last_row) =~= old_dv + seq![last_row]);
            }
        }
        map
    }
}

/// The input intents sampled once per tick: jump, walk left, walk right.
#[derive(Clone, Copy, PartialEq, Eq, Structural, Debug)]
pub struct Controller {
    pub up: bool,
    pub left: bool,
    pub right: bool,
}

impl Controller {
    /// No intent pressed.
    pub fn new() -> (c: Controller)
        ensures
            c == (Controller { up: false, left: false, right: false }),
    {
        Controller { up: false, left: false, right: false }
    }
}

} // verus!
