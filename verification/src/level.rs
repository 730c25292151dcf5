//! The arena: its walls, the floor grid, and the edges enemies enter from.
use vstd::prelude::*;

verus! {

/// Width of the arena.
pub const ARENA_WIDTH: i32 = 960;

/// Height of the arena.
pub const ARENA_HEIGHT: i32 = 640;

/// Distance between two lines of the floor grid.
pub const GRID_SPACING: usize = 40;

/// An axis-aligned rectangle, given by its centre and its full size.
#[derive(Clone, Copy, Debug, PartialEq, Eq)]
pub struct Rect {
    pub centre_x: i32,
    pub centre_y: i32,
    pub width: i32,
    pub height: i32,
}

impl Rect {
    /// The rectangle centred on `(x, y)` with the given width and height.
    pub fn new(x: i32, y: i32, width: i32, height: i32) -> (rect: Rect)
        ensures
            rect.centre_x == x,
            rect.centre_y == y,
            rect.width == width,
            rect.height == height,
    {
        Rect { centre_x: x, centre_y: y, width, height }
    }
}

/// The rectangle with these four numbers.
pub open spec fn rect_of(x: i32, y: i32, width: i32, height: i32) -> Rect {
    Rect { centre_x: x, centre_y: y, width, height }
}

/// The walls of the level.
pub open spec fn level_walls_spec() -> Seq<Rect> {
    seq![
        rect_of(-210i32, 185i32, 220i32, 28i32),
        rect_of(230i32, 195i32, 180i32, 28i32),
        rect_of(-240i32, -115i32, 220i32, 28i32),
        rect_of(250i32, -139i32, 240i32, 28i32),
        rect_of(-24i32, 5i32, 32i32, 190i32),
        rect_of(57i32, -10i32, 32i32, 140i32),
    ]
}

/// The walls of the level.
pub fn level_walls() -> (walls: Vec<Rect>)
    ensures
        walls@ == level_walls_spec(),
        walls@.len() == 6,
        walls@[0].centre_x == -210 && walls@[0].centre_y == 185 && walls@[0].width == 220 && walls@[0].height == 28,
        walls@[1].centre_x == 230 && walls@[1].centre_y == 195 && walls@[1].width == 180 && walls@[1].height == 28,
        walls@[2].centre_x == -240 && walls@[2].centre_y == -115 && walls@[2].width == 220 && walls@[2].height == 28,
        walls@[3].centre_x == 250 && walls@[3].centre_y == -139 && walls@[3].width == 240 && walls@[3].height == 28,
        walls@[4].centre_x == -24 && walls@[4].centre_y == 5 && walls@[4].width == 32 && walls@[4].height == 190,
        walls@[5].centre_x == 57 && walls@[5].centre_y == -10 && walls@[5].width == 32 && walls@[5].height == 140,
{
    let walls = vec![
        Rect::new(-210, 185, 220, 28),
        Rect::new(230, 195, 180, 28),
        Rect::new(-240, -115, 220, 28),
        Rect::new(250, -139, 240, 28),
        Rect::new(-24, 5, 32, 190),
        Rect::new(57, -10, 32, 140),
    ];
    assert(walls@ =~= level_walls_spec());
    proof {
        lemma_level_walls_layout();
    }
    walls
}

/// The level's six walls, by centre and size: four horizontal bars, two on
/// each side, and two vertical bars near the middle.
pub proof fn lemma_level_walls_layout()
    ensures
        level_walls_spec().len() == 6,
        level_walls_spec()[0].centre_x == -210 && level_walls_spec()[0].centre_y == 185 && level_walls_spec()[0].width == 220 && level_walls_spec()[0].height == 28,
        level_walls_spec()[1].centre_x == 230 && level_walls_spec()[1].centre_y == 195 && level_walls_spec()[1].width == 180 && level_walls_spec()[1].height == 28,
        level_walls_spec()[2].centre_x == -240 && level_walls_spec()[2].centre_y == -115 && level_walls_spec()[2].width == 220 && level_walls_spec()[2].height == 28,
        level_walls_spec()[3].centre_x == 250 && level_walls_spec()[3].centre_y == -139 && level_walls_spec()[3].width == 240 && level_walls_spec()[3].height == 28,
        level_walls_spec()[4].centre_x == -24 && level_walls_spec()[4].centre_y == 5 && level_walls_spec()[4].width == 32 && level_walls_spec()[4].height == 190,
        level_walls_spec()[5].centre_x == 57 && level_walls_spec()[5].centre_y == -10 && level_walls_spec()[5].width == 32 && level_walls_spec()[5].height == 140,
{
}

/// The distance along one axis from a coordinate to a wall's extent on that
/// axis, doubled so that odd sizes stay whole: zero inside the extent.
pub open spec fn doubled_gap(coord: int, centre: int, size: int) -> int {
    let d = if coord >= centre {
        2 * (coord - centre)
    } else {
        2 * (centre - coord)
    };
    if d > size {
        d - size
    } else {
        0
    }
}

/// Every wall of the level lies inside the arena, and the player's start, a
/// circle of radius 15 at `(0, -180)`, touches none of them.
pub proof fn lemma_level_walls_sound()
    ensures
        forall|k: int|
            0 <= k < level_walls_spec().len() ==> {
                let w = #[trigger] level_walls_spec()[k];
                &&& 2 * (if w.centre_x < 0 {
                    -w.centre_x
                } else {
                    w.centre_x as int
                }) + w.width <= ARENA_WIDTH
                &&& 2 * (if w.centre_y < 0 {
                    -w.centre_y
                } else {
                    w.centre_y as int
                }) + w.height <= ARENA_HEIGHT
                &&& doubled_gap(0, w.centre_x as int, w.width as int) * doubled_gap(
                    0,
                    w.centre_x as int,
                    w.width as int,
                ) + doubled_gap(-180, w.centre_y as int, w.height as int) * doubled_gap(
                    -180,
                    w.centre_y as int,
                    w.height as int,
                ) >= 30 * 30
            },
{
    let walls = level_walls_spec();
    assert forall|k: int| 0 <= k < walls.len() implies {
        let w = #[trigger] walls[k];
        &&& 2 * (if w.centre_x < 0 {
            -w.centre_x
        } else {
            w.centre_x as int
        }) + w.width <= ARENA_WIDTH
        &&& 2 * (if w.centre_y < 0 {
            -w.centre_y
        } else {
            w.centre_y as int
        }) + w.height <= ARENA_HEIGHT
        &&& doubled_gap(0, w.centre_x as int, w.width as int) * doubled_gap(
            0,
            w.centre_x as int,
            w.width as int,
        ) + doubled_gap(-180, w.centre_y as int, w.height as int) * doubled_gap(
            -180,
            w.centre_y as int,
            w.height as int,
        ) >= 30 * 30
    } by {
        let w = walls[k];
        if k == 0 {
            assert(w == rect_of(-210i32, 185i32, 220i32, 28i32));
            assert(doubled_gap(0, w.centre_x as int, w.width as int) == 200);
            assert(doubled_gap(-180, w.centre_y as int, w.height as int) == 702);
        }
        if k == 1 {
            assert(w == rect_of(230i32, 195i32, 180i32, 28i32));
            assert(doubled_gap(0, w.centre_x as int, w.width as int) == 280);
            assert(doubled_gap(-180, w.centre_y as int, w.height as int) == 722);
        }
        if k == 2 {
            assert(w == rect_of(-240i32, -115i32, 220i32, 28i32));
            assert(doubled_gap(0, w.centre_x as int, w.width as int) == 260);
            assert(doubled_gap(-180, w.centre_y as int, w.height as int) == 102);
        }
        if k == 3 {
            assert(w == rect_of(250i32, -139i32, 240i32, 28i32));
            assert(doubled_gap(0, w.centre_x as int, w.width as int) == 260);
            assert(doubled_gap(-180, w.centre_y as int, w.height as int) == 54);
        }
        if k == 4 {
            assert(w == rect_of(-24i32, 5i32, 32i32, 190i32));
            assert(doubled_gap(0, w.centre_x as int, w.width as int) == 16);
            assert(doubled_gap(-180, w.centre_y as int, w.height as int) == 180);
        }
        if k == 5 {
            assert(w == rect_of(57i32, -10i32, 32i32, 140i32));
            assert(doubled_gap(0, w.centre_x as int, w.width as int) == 82);
            assert(doubled_gap(-180, w.centre_y as int, w.height as int) == 200);
        }
    }
}

/// How many values `(start..=end).step_by(step)` yields.
pub open spec fn stepped_count(start: int, end: int, step: int) -> nat {
    if start <= end {
        ((end - start) / step + 1) as nat
    } else {
        0
    }
}

/// The values of `(start..=end).step_by(step)`: `start`, `start + step`, ...,
/// as long as they do not pass `end`.
pub open spec fn stepped_values(start: i32, end: i32, step: usize) -> Seq<i32> {
    Seq::new(
        stepped_count(start as int, end as int, step as int),
        |k: int| (start + k * step) as i32,
    )
}

/// The values from `start` to `end` (both included) in steps of `step`; the
/// floor grid lines stand at these coordinates.
pub fn stepped_range(start: i32, end: i32, step: usize) -> (values: Vec<i32>)
    requires
        step > 0,
    ensures
        values@ == stepped_values(start, end, step),
        forall|k: int| 0 <= k < values@.len() ==> start <= #[trigger] values@[k] <= end,
        forall|k: int| 0 <= k < values@.len() ==> #[trigger] values@[k] == start + k * step,
        values@.len() == 0 <==> start > end,
        values@.len() > 0 ==> values@[values@.len() - 1] + step > end,
{
    let mut values: Vec<i32> = Vec::new();
    if start > end {
        assert(values@ =~= stepped_values(start, end, step));
        return values;
    }
    let diff: u64 = (end as i64 - start as i64) as u64;
    let stride: u64 = step as u64;
    let mut offset: u64 = 0;
    let ghost mut k: int = 0;
    loop
        invariant
            start <= end,
            diff == end - start,
            stride == step,
            stride > 0,
            offset <= diff,
            offset == k * stride,
            k >= 0,
            values@ =~= Seq::new(k as nat, |j: int| (start + j * step) as i32),
            forall|j: int| 0 <= j < values@.len() ==> start <= #[trigger] values@[j] <= end,
            forall|j: int| 0 <= j < values@.len() ==> #[trigger] values@[j] == start + j * step,
        decreases diff - offset,
    {
        let value = (start as i64 + offset as i64) as i32;
        values.push(value);
        proof {
            assert(values@ =~= Seq::new((k + 1) as nat, |j: int| (start + j * step) as i32));
        }
        if diff - offset < stride {
            proof {
                vstd::arithmetic::div_mod::lemma_fundamental_div_mod_converse(
                    diff as int,
                    stride as int,
                    k,
                    (diff - offset) as int,
                );
                assert(stepped_count(start as int, end as int, step as int) == k + 1);
                assert(values@[values@.len() - 1] == start + offset);
                assert(values@ =~= stepped_values(start, end, step));
            }
            return values;
        }
        offset = offset + stride;
        proof {
            assert((k + 1) * stride == k * stride + stride) by (nonlinear_arith);
            k = k + 1;
        }
    }
}

/// The edge of the arena a new enemy enters from.
#[derive(Clone, Copy, Debug, PartialEq, Eq)]
pub enum SpawnEdge {
    Top,
    Bottom,
    Left,
    Right,
}

/// The edge picked by a random roll out of four: 0 top, 1 bottom, 2 left, any
/// other roll right.
pub fn spawn_edge(roll: usize) -> (edge: SpawnEdge)
    ensures
        roll == 0 ==> edge == SpawnEdge::Top,
        roll == 1 ==> edge == SpawnEdge::Bottom,
        roll == 2 ==> edge == SpawnEdge::Left,
        roll >= 3 ==> edge == SpawnEdge::Right,
{
    match roll {
        0 => SpawnEdge::Top,
        1 => SpawnEdge::Bottom,
        2 => SpawnEdge::Left,
        _ => SpawnEdge::Right,
    }
}

/// The extent of an axis-aligned box by its corners, in any coordinate type.
#[derive(Clone, Copy, Debug, PartialEq)]
pub struct Bounds<T> {
    pub min_x: T,
    pub min_y: T,
    pub max_x: T,
    pub max_y: T,
}

/// A point of the plane, in any coordinate type.
#[derive(Clone, Copy, Debug, PartialEq)]
pub struct Point<T> {
    pub x: T,
    pub y: T,
}

/// A segment from `a` to `b`.
#[derive(Clone, Copy, Debug, PartialEq)]
pub struct Segment<T> {
    pub a: Point<T>,
    pub b: Point<T>,
}

/// The segment from `(ax, ay)` to `(bx, by)`.
pub open spec fn seg<T>(ax: T, ay: T, bx: T, by: T) -> Segment<T> {
    Segment { a: Point { x: ax, y: ay }, b: Point { x: bx, y: by } }
}

/// The four sides of a box, counter-clockwise from its bottom-left corner:
/// bottom, right, top, left.
pub open spec fn outline_spec<T>(bounds: Bounds<T>) -> Seq<Segment<T>> {
    let (x0, y0, x1, y1) = (bounds.min_x, bounds.min_y, bounds.max_x, bounds.max_y);
    seq![seg(x0, y0, x1, y0), seg(x1, y0, x1, y1), seg(x1, y1, x0, y1), seg(x0, y1, x0, y0)]
}

/// The segments that block sight: the arena's border, then each wall's four
/// sides in the order the walls are given.
pub open spec fn sight_segments_spec<T>(arena: Bounds<T>, walls: Seq<Bounds<T>>) -> Seq<Segment<T>>
    decreases walls.len(),
{
    if walls.len() == 0 {
        outline_spec(arena)
    } else {
        sight_segments_spec(arena, walls.drop_last()) + outline_spec(walls.last())
    }
}

/// The four sides of a box.
pub fn outline<T: Copy>(bounds: &Bounds<T>) -> (sides: Vec<Segment<T>>)
    ensures
        sides@ == outline_spec(*bounds),
        sides@.len() == 4,
        sides@[0].a == (Point { x: bounds.min_x, y: bounds.min_y }) && sides@[0].b == (Point { x: bounds.max_x, y: bounds.min_y }),
        sides@[1].a == (Point { x: bounds.max_x, y: bounds.min_y }) && sides@[1].b == (Point { x: bounds.max_x, y: bounds.max_y }),
        sides@[2].a == (Point { x: bounds.max_x, y: bounds.max_y }) && sides@[2].b == (Point { x: bounds.min_x, y: bounds.max_y }),
        sides@[3].a == (Point { x: bounds.min_x, y: bounds.max_y }) && sides@[3].b == (Point { x: bounds.min_x, y: bounds.min_y }),
{
    let (x0, y0, x1, y1) = (bounds.min_x, bounds.min_y, bounds.max_x, bounds.max_y);
    let sides = vec![
        Segment { a: Point { x: x0, y: y0 }, b: Point { x: x1, y: y0 } },
        Segment { a: Point { x: x1, y: y0 }, b: Point { x: x1, y: y1 } },
        Segment { a: Point { x: x1, y: y1 }, b: Point { x: x0, y: y1 } },
        Segment { a: Point { x: x0, y: y1 }, b: Point { x: x0, y: y0 } },
    ];
    assert(sides@ =~= outline_spec(*bounds));
    proof {
        lemma_outline_corners(*bounds);
    }
    sides
}

/// A box's outline runs from its bottom-left corner to the bottom-right, up to
/// the top-right, across to the top-left and back down.
pub proof fn lemma_outline_corners<T>(bounds: Bounds<T>)
    ensures
        outline_spec(bounds).len() == 4,
        outline_spec(bounds)[0].a == (Point { x: bounds.min_x, y: bounds.min_y }) && outline_spec(bounds)[0].b == (Point { x: bounds.max_x, y: bounds.min_y }),
        outline_spec(bounds)[1].a == (Point { x: bounds.max_x, y: bounds.min_y }) && outline_spec(bounds)[1].b == (Point { x: bounds.max_x, y: bounds.max_y }),
        outline_spec(bounds)[2].a == (Point { x: bounds.max_x, y: bounds.max_y }) && outline_spec(bounds)[2].b == (Point { x: bounds.min_x, y: bounds.max_y }),
        outline_spec(bounds)[3].a == (Point { x: bounds.min_x, y: bounds.max_y }) && outline_spec(bounds)[3].b == (Point { x: bounds.min_x, y: bounds.min_y }),
{
}

/// The segments that block sight and light: the arena's border, then the
/// sides of every wall.
pub fn sight_segments<T: Copy>(arena: &Bounds<T>, walls: &[Bounds<T>]) -> (segments: Vec<Segment<T>>)
    ensures
        segments@ == sight_segments_spec(*arena, walls@),
        segments@.len() == 4 + 4 * walls@.len(),
        forall|k: int| 0 <= k < 4 ==> #[trigger] segments@[k] == outline_spec(*arena)[k],
        forall|w: int, k: int|
            0 <= w < walls@.len() && 0 <= k < 4 ==> #[trigger] segments@[4 + 4 * w + k]
                == outline_spec(walls@[w])[k],
{
    let mut segments = outline(arena);
    assert(walls@.take(0) =~= Seq::<Bounds<T>>::empty());
    let mut i: usize = 0;
    while i < walls.len()
        invariant
            i <= walls@.len(),
            segments@ == sight_segments_spec(*arena, walls@.take(i as int)),
            segments@.len() == 4 + 4 * i,
        decreases walls@.len() - i,
    {
        let sides = outline(&walls[i]);
        let mut k: usize = 0;
        let ghost before = segments@;
        while k < sides.len()
            invariant
                k <= sides@.len(),
                sides@.len() == 4,
                segments@ == before + sides@.take(k as int),
            decreases sides@.len() - k,
        {
            segments.push(sides[k]);
            proof {
                assert(sides@.take(k + 1) =~= sides@.take(k as int).push(sides@[k as int]));
            }
            k += 1;
        }
        proof {
            assert(sides@.take(4) =~= sides@);
            assert(walls@.take(i + 1).drop_last() =~= walls@.take(i as int));
            assert(walls@.take(i + 1).last() == walls@[i as int]);
        }
        i += 1;
    }
    assert(walls@.take(walls@.len() as int) =~= walls@);
    proof {
        assert forall|k: int| 0 <= k < 4 implies #[trigger] segments@[k] == outline_spec(*arena)[k] by {
            lemma_sight_segment_layout(*arena, walls@, 0, k);
        }
        assert forall|w: int, k: int|
            0 <= w < walls@.len() && 0 <= k < 4 implies #[trigger] segments@[4 + 4 * w + k]
                == outline_spec(walls@[w])[k] by {
            lemma_sight_segment_layout(*arena, walls@, w, k);
        }
    }
    segments
}

/// Each box's outline is a closed loop: every side starts where the one before
/// it ends, and the last ends where the first starts.
pub proof fn lemma_outline_closed<T>(bounds: Bounds<T>)
    ensures
        outline_spec(bounds).len() == 4,
        forall|k: int|
            0 <= k < 4 ==> (#[trigger] outline_spec(bounds)[k]).b == outline_spec(bounds)[(k + 1)
                % 4].a,
{
    let o = outline_spec(bounds);
    assert(o[0].b == o[1].a);
    assert(o[1].b == o[2].a);
    assert(o[2].b == o[3].a);
    assert(o[3].b == o[0].a);
}

/// Segment `4 + 4 * w + k` of the sight segments is side `k` of wall `w`, and
/// the first four are the arena's border.
pub proof fn lemma_sight_segment_layout<T>(arena: Bounds<T>, walls: Seq<Bounds<T>>, w: int, k: int)
    requires
        0 <= k < 4,
    ensures
        sight_segments_spec(arena, walls).len() == 4 + 4 * walls.len(),
        sight_segments_spec(arena, walls)[k] == outline_spec(arena)[k],
        0 <= w < walls.len() ==> sight_segments_spec(arena, walls)[4 + 4 * w + k] == outline_spec(
            walls[w],
        )[k],
    decreases walls.len(),
{
    if walls.len() > 0 {
        lemma_sight_segment_layout(arena, walls.drop_last(), w, k);
        let prev = sight_segments_spec(arena, walls.drop_last());
        assert(sight_segments_spec(arena, walls) == prev + outline_spec(walls.last()));
        if w == walls.len() - 1 {
            assert(walls.last() == walls[w]);
        } else if 0 <= w < walls.len() - 1 {
            assert(walls.drop_last()[w] == walls[w]);
        }
    }
}

} // verus!
