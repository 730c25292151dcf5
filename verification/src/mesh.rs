//! The darkness overlay: a mesh that covers the arena (two triangles over its
//! four corners) and, on top of it, the lit area as a fan of triangles over the
//! points of the visibility polygon.
use vstd::prelude::*;

verus! {

/// Number of corners of the arena frame, which come first among the vertices.
pub const FRAME_CORNERS: u32 = 4;

/// The two triangles that cover the arena frame.
pub open spec fn frame_triangles() -> Seq<u32> {
    seq![0u32, 1, 2, 0, 2, 3]
}

/// The first `count` triangles of the fan: triangle `i` (from 1) joins the
/// first polygon vertex with vertices `i` and `i + 1` of the polygon.
pub open spec fn fan_triangles(count: nat) -> Seq<u32>
    decreases count,
{
    if count == 0 {
        Seq::empty()
    } else {
        fan_triangles((count - 1) as nat) + seq![
            FRAME_CORNERS,
            (FRAME_CORNERS + count) as u32,
            (FRAME_CORNERS + count + 1) as u32,
        ]
    }
}

/// The triangle list of the overlay for a polygon of `polygon_len` points: the
/// frame, then a fan over the polygon when it has at least three points.
pub open spec fn darkness_index_spec(polygon_len: nat) -> Seq<u32> {
    if polygon_len >= 3 {
        frame_triangles() + fan_triangles((polygon_len - 2) as nat)
    } else {
        frame_triangles()
    }
}

/// The three indices of fan triangle `t` in an overlay triangle list: the
/// entries `6 + 3 * t`, `7 + 3 * t` and `8 + 3 * t`, after the frame's two
/// triangles.
pub open spec fn fan_triangle_at(indices: Seq<u32>, t: int) -> Seq<u32> {
    indices.subrange(6 + 3 * t, 9 + 3 * t)
}

/// The vertices of the overlay: the frame corners, then the polygon in reverse.
pub open spec fn darkness_vertex_spec<T>(frame: Seq<T>, polygon: Seq<T>) -> Seq<T> {
    frame + polygon.reverse()
}

/// The triangle list of the overlay, three vertex indices per triangle.
pub fn darkness_indices(polygon_len: usize) -> (indices: Vec<u32>)
    requires
        polygon_len + 3 <= u32::MAX,
    ensures
        indices@ == darkness_index_spec(polygon_len as nat),
        indices@.len() == if polygon_len >= 3 {
            6 + 3 * (polygon_len - 2)
        } else {
            6
        },
        indices@[0] == 0 && indices@[1] == 1 && indices@[2] == 2,
        indices@[3] == 0 && indices@[4] == 2 && indices@[5] == 3,
        forall|t: int|
            0 <= t < polygon_len - 2 ==> #[trigger] fan_triangle_at(indices@, t) == seq![
                4u32,
                (4 + t + 1) as u32,
                (4 + t + 2) as u32,
            ],
{
    let mut indices: Vec<u32> = vec![0u32, 1, 2, 0, 2, 3];
    assert(indices@ =~= frame_triangles());
    if polygon_len >= 3 {
        let last = polygon_len - 1;
        let mut i: usize = 1;
        while i < last
            invariant
                1 <= i <= last,
                last == polygon_len - 1,
                polygon_len + 3 <= u32::MAX,
                indices@ == frame_triangles() + fan_triangles((i - 1) as nat),
            decreases last - i,
        {
            let k = i as u32;
            indices.push(FRAME_CORNERS);
            indices.push(FRAME_CORNERS + k);
            indices.push(FRAME_CORNERS + k + 1);
            proof {
                assert(fan_triangles(i as nat) == fan_triangles((i - 1) as nat) + seq![
                    FRAME_CORNERS,
                    (FRAME_CORNERS + i) as u32,
                    (FRAME_CORNERS + i + 1) as u32,
                ]);
                assert(indices@ =~= frame_triangles() + fan_triangles(i as nat));
            }
            i += 1;
        }
    }
    proof {
        lemma_darkness_index_layout(polygon_len as nat);
    }
    indices
}

/// The vertex list of the overlay: the frame corners, then the polygon points
/// in reverse order.
pub fn darkness_vertices<T: Copy>(frame: &[T], polygon: &[T]) -> (vertices: Vec<T>)
    ensures
        vertices@ == darkness_vertex_spec(frame@, polygon@),
        vertices@.len() == frame@.len() + polygon@.len(),
        forall|i: int| 0 <= i < frame@.len() ==> #[trigger] vertices@[i] == frame@[i],
        forall|k: int|
            0 <= k < polygon@.len() ==> #[trigger] vertices@[frame@.len() + k] == polygon@[polygon@.len()
                - 1 - k],
{
    let mut vertices: Vec<T> = Vec::new();
    let mut i: usize = 0;
    while i < frame.len()
        invariant
            i <= frame@.len(),
            vertices@ == frame@.take(i as int),
        decreases frame@.len() - i,
    {
        vertices.push(frame[i]);
        proof {
            assert(frame@.take(i + 1) =~= frame@.take(i as int).push(frame@[i as int]));
        }
        i += 1;
    }
    assert(frame@.take(frame@.len() as int) =~= frame@);
    let mut j: usize = polygon.len();
    while j > 0
        invariant
            j <= polygon@.len(),
            vertices@ == frame@ + polygon@.reverse().take(polygon@.len() - j),
        decreases j,
    {
        j -= 1;
        vertices.push(polygon[j]);
        proof {
            let r = polygon@.reverse();
            assert(r[polygon@.len() - j - 1] == polygon@[j as int]);
            assert(r.take(polygon@.len() - j) =~= r.take(polygon@.len() - j - 1).push(
                polygon@[j as int],
            ));
        }
    }
    assert(polygon@.reverse().take(polygon@.len() as int) =~= polygon@.reverse());
    proof {
        lemma_darkness_vertex_layout(frame@, polygon@);
    }
    vertices
}

/// Every index of the fan names a vertex the overlay has: the frame corners
/// and the polygon points (`count + 2` of them for `count` triangles).
proof fn lemma_fan_in_range(count: nat)
    ensures
        fan_triangles(count).len() == 3 * count,
        forall|j: int|
            0 <= j < fan_triangles(count).len() ==> fan_triangles(count)[j] < FRAME_CORNERS + count
                + 2,
    decreases count,
{
    if count > 0 {
        lemma_fan_in_range((count - 1) as nat);
    }
}

/// The overlay is a triangle list (its length is a multiple of three), and
/// every index names one of its `4 + polygon_len` vertices.
pub proof fn lemma_darkness_indices_in_range(polygon_len: nat)
    ensures
        darkness_index_spec(polygon_len).len() % 3 == 0,
        forall|j: int|
            0 <= j < darkness_index_spec(polygon_len).len() ==> darkness_index_spec(polygon_len)[j]
                < FRAME_CORNERS + polygon_len,
        darkness_index_spec(polygon_len).len() == if polygon_len >= 3 {
            6 + 3 * (polygon_len - 2)
        } else {
            6
        },
{
    if polygon_len >= 3 {
        lemma_fan_in_range((polygon_len - 2) as nat);
        let f = frame_triangles();
        let t = fan_triangles((polygon_len - 2) as nat);
        assert forall|j: int| 0 <= j < (f + t).len() implies (f + t)[j] < FRAME_CORNERS
            + polygon_len by {
            if j >= 6 {
                assert((f + t)[j] == t[j - 6]);
            }
        }
    }
}

/// Every triangle of the fan pivots on vertex 4, the first polygon vertex:
/// triangle `t` is `(4, 4 + t + 1, 4 + t + 2)`.
pub proof fn lemma_fan_layout(count: nat, t: int)
    requires
        0 <= t < count,
        count + 5 <= u32::MAX,
    ensures
        fan_triangles(count).len() == 3 * count,
        fan_triangles(count)[3 * t] == 4,
        fan_triangles(count)[3 * t + 1] == 4 + t + 1,
        fan_triangles(count)[3 * t + 2] == 4 + t + 2,
    decreases count,
{
    lemma_fan_in_range(count);
    lemma_fan_in_range((count - 1) as nat);
    let prev = fan_triangles((count - 1) as nat);
    if t < count - 1 {
        lemma_fan_layout((count - 1) as nat, t);
        assert(fan_triangles(count)[3 * t] == prev[3 * t]);
        assert(fan_triangles(count)[3 * t + 1] == prev[3 * t + 1]);
        assert(fan_triangles(count)[3 * t + 2] == prev[3 * t + 2]);
    } else {
        assert(3 * t == prev.len());
        let last = seq![
            FRAME_CORNERS,
            (FRAME_CORNERS + count) as u32,
            (FRAME_CORNERS + count + 1) as u32,
        ];
        assert(fan_triangles(count) == prev + last);
        assert(fan_triangles(count)[3 * t] == last[0]);
        assert(fan_triangles(count)[3 * t + 1] == last[1]);
        assert(fan_triangles(count)[3 * t + 2] == last[2]);
    }
}

/// The overlay's triangle list, index by index: the frame's two triangles
/// `(0, 1, 2)` and `(0, 2, 3)`, then for a polygon of at least three points the
/// fan triangles `(4, 4 + t + 1, 4 + t + 2)` for `t` below `polygon_len - 2`,
/// all sharing the polygon's first vertex, and nothing else.
pub proof fn lemma_darkness_index_layout(polygon_len: nat)
    requires
        polygon_len + 3 <= u32::MAX,
    ensures
        darkness_index_spec(polygon_len).len() == if polygon_len >= 3 {
            6 + 3 * (polygon_len - 2)
        } else {
            6
        },
        darkness_index_spec(polygon_len)[0] == 0,
        darkness_index_spec(polygon_len)[1] == 1,
        darkness_index_spec(polygon_len)[2] == 2,
        darkness_index_spec(polygon_len)[3] == 0,
        darkness_index_spec(polygon_len)[4] == 2,
        darkness_index_spec(polygon_len)[5] == 3,
        forall|t: int|
            0 <= t < polygon_len - 2 ==> #[trigger] fan_triangle_at(darkness_index_spec(polygon_len), t)
                == seq![4u32, (4 + t + 1) as u32, (4 + t + 2) as u32],
{
    lemma_darkness_indices_in_range(polygon_len);
    let f = frame_triangles();
    assert(f[0] == 0 && f[1] == 1 && f[2] == 2 && f[3] == 0 && f[4] == 2 && f[5] == 3);
    if polygon_len >= 3 {
        let count = (polygon_len - 2) as nat;
        let ft = fan_triangles(count);
        lemma_fan_in_range(count);
        assert forall|t: int| 0 <= t < polygon_len - 2 implies #[trigger] fan_triangle_at(
            darkness_index_spec(polygon_len),
            t,
        ) == seq![4u32, (4 + t + 1) as u32, (4 + t + 2) as u32] by {
            lemma_fan_layout(count, t);
            assert((f + ft)[6 + 3 * t] == ft[3 * t]);
            assert((f + ft)[7 + 3 * t] == ft[3 * t + 1]);
            assert((f + ft)[8 + 3 * t] == ft[3 * t + 2]);
            assert(fan_triangle_at(darkness_index_spec(polygon_len), t) =~= seq![
                4u32,
                (4 + t + 1) as u32,
                (4 + t + 2) as u32,
            ]);
        }
    }
}

/// The overlay's vertices: the frame's corners in order, then the polygon's
/// points last to first, one vertex for each and nothing more.
pub proof fn lemma_darkness_vertex_layout<T>(frame: Seq<T>, polygon: Seq<T>)
    ensures
        darkness_vertex_spec(frame, polygon).len() == frame.len() + polygon.len(),
        forall|i: int| 0 <= i < frame.len() ==> #[trigger] darkness_vertex_spec(frame, polygon)[i] == frame[i],
        forall|k: int|
            0 <= k < polygon.len() ==> #[trigger] darkness_vertex_spec(frame, polygon)[frame.len() + k]
                == polygon[polygon.len() - 1 - k],
{
    let v = frame + polygon.reverse();
    assert forall|k: int| 0 <= k < polygon.len() implies #[trigger] darkness_vertex_spec(
        frame,
        polygon,
    )[frame.len() + k] == polygon[polygon.len() - 1 - k] by {
        assert(v[frame.len() + k] == polygon.reverse()[k]);
    }
}

} // verus!
