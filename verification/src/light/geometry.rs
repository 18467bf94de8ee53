//! The geometry that the light pipeline draws: the vertices and element
//! indices of occluder lines, and the element indices of lights' circle
//! segments.
//!
//! Positions that are computed with floating point numbers (the points on
//! a circle, the corners of a rectangle) are computed by the caller and
//! handed over as IEEE 754 bit patterns (as given by `f32::to_bits`);
//! which vertices are written and which of them form a primitive is
//! decided here.

use vstd::prelude::*;

verus! {

/// Appends the elements of one occluder line: four line vertices, indexed
/// from the number of elements already written.
pub fn occluder_line_elements(elements: &mut Vec<u32>)
    requires
        old(elements)@.len() + 3 <= u32::MAX,
    ensures
        ({
            let s = old(elements)@.len();
            final(elements)@ == old(elements)@ + seq![
                s as u32,
                (s + 1) as u32,
                (s + 2) as u32,
                (s + 3) as u32,
            ]
        }),
{
    let start = elements.len() as u32;
    elements.push(start);
    elements.push(start + 1);
    elements.push(start + 2);
    elements.push(start + 3);
    assert(elements@ =~= old(elements)@ + seq![start, (start + 1) as u32, (start + 2) as u32, (start + 3) as u32]);
}

/// A point as the bit patterns of its x and y coordinates.
pub type PointBits = (u32, u32);

/// A line between two points.
pub type LineBits = (PointBits, PointBits);

/// A vertex of an occluder line, as the shadow map pass reads it.
///
/// The coordinates and the height are IEEE 754 bit patterns.
#[derive(Debug, Clone, Copy, PartialEq, Eq)]
pub struct OccluderLineVertex {
    /// The endpoint that this vertex extrudes from.
    pub line_0: PointBits,
    /// The other endpoint.
    pub line_1: PointBits,
    /// The position of this vertex among the four of its line.
    pub order: i32,
    pub height: u32,
    /// The index of a light that does not cast this occluder's shadow, or
    /// -1 for none.
    pub ignore_light_index1: i32,
    /// Another such light index, or -1 for none.
    pub ignore_light_index2: i32,
}

/// The attribute value of an optional light index: the index, or -1 for
/// none.
pub open spec fn light_index_value(index: Option<u32>) -> i32 {
    match index {
        Some(i) => i as i32,
        None => -1i32,
    }
}

/// Whether an optional light index fits an `i32` attribute.
pub open spec fn light_index_fits(index: Option<u32>) -> bool {
    index matches Some(i) ==> i <= i32::MAX
}

/// The attribute value of an optional light index.
pub fn light_index_attribute(index: Option<u32>) -> (r: i32)
    requires
        light_index_fits(index),
    ensures
        r == light_index_value(index),
{
    match index {
        Some(i) => i as i32,
        None => -1,
    }
}

/// The four vertices of an occluder line: vertex `k` has order `k`, and
/// runs from the line's first endpoint to its second for even `k`, from
/// the second to the first for odd `k`.
pub open spec fn occluder_line_vertices(
    line: LineBits,
    height: u32,
    ignore1: Option<u32>,
    ignore2: Option<u32>,
) -> Seq<OccluderLineVertex> {
    Seq::new(
        4,
        |k: int|
            OccluderLineVertex {
                line_0: if k % 2 == 0 { line.0 } else { line.1 },
                line_1: if k % 2 == 0 { line.1 } else { line.0 },
                order: k as i32,
                height,
                ignore_light_index1: light_index_value(ignore1),
                ignore_light_index2: light_index_value(ignore2),
            },
    )
}

/// Writes one occluder line: its four element indices, numbered from the
/// number of elements already written (see [`occluder_line_elements`]), and
/// its four vertices.
pub fn occluder_line_write(
    line: LineBits,
    height: u32,
    ignore1: Option<u32>,
    ignore2: Option<u32>,
    elements: &mut Vec<u32>,
    vertices: &mut Vec<OccluderLineVertex>,
)
    requires
        old(elements)@.len() + 3 <= u32::MAX,
        light_index_fits(ignore1),
        light_index_fits(ignore2),
    ensures
        ({
            let s = old(elements)@.len();
            final(elements)@ == old(elements)@ + seq![
                s as u32,
                (s + 1) as u32,
                (s + 2) as u32,
                (s + 3) as u32,
            ]
        }),
        final(vertices)@ == old(vertices)@ + occluder_line_vertices(line, height, ignore1, ignore2),
        old(elements)@.len() == old(vertices)@.len() ==> {
            &&& final(elements)@.len() == final(vertices)@.len()
            &&& forall|k: int|
                old(elements)@.len() <= k < final(elements)@.len() ==> old(vertices)@.len()
                    <= #[trigger] final(elements)@[k] < final(vertices)@.len()
        },
{
    let i1 = light_index_attribute(ignore1);
    let i2 = light_index_attribute(ignore2);
    occluder_line_elements(elements);
    let (p0, p1) = line;
    let ghost before = vertices@;
    vertices.push(OccluderLineVertex {
        line_0: p0,
        line_1: p1,
        order: 0,
        height,
        ignore_light_index1: i1,
        ignore_light_index2: i2,
    });
    vertices.push(OccluderLineVertex {
        line_0: p1,
        line_1: p0,
        order: 1,
        height,
        ignore_light_index1: i1,
        ignore_light_index2: i2,
    });
    vertices.push(OccluderLineVertex {
        line_0: p0,
        line_1: p1,
        order: 2,
        height,
        ignore_light_index1: i1,
        ignore_light_index2: i2,
    });
    vertices.push(OccluderLineVertex {
        line_0: p1,
        line_1: p0,
        order: 3,
        height,
        ignore_light_index1: i1,
        ignore_light_index2: i2,
    });
    assert(vertices@ =~= before + occluder_line_vertices(line, height, ignore1, ignore2));
}

/// The vertices of several occluder lines, line by line.
pub open spec fn occluder_lines_vertices(
    lines: Seq<LineBits>,
    height: u32,
    ignore1: Option<u32>,
    ignore2: Option<u32>,
) -> Seq<OccluderLineVertex>
    decreases lines.len(),
{
    if lines.len() == 0 {
        seq![]
    } else {
        occluder_lines_vertices(lines.drop_last(), height, ignore1, ignore2)
            + occluder_line_vertices(lines.last(), height, ignore1, ignore2)
    }
}

proof fn lemma_lines_vertices_len(
    lines: Seq<LineBits>,
    height: u32,
    ignore1: Option<u32>,
    ignore2: Option<u32>,
)
    ensures
        occluder_lines_vertices(lines, height, ignore1, ignore2).len() == 4 * lines.len(),
    decreases lines.len(),
{
    if lines.len() > 0 {
        lemma_lines_vertices_len(lines.drop_last(), height, ignore1, ignore2);
    }
}

/// The vertices of several occluder lines are those of each line in turn:
/// vertex `k` of line `j` stands at `4 * j + k`.
pub proof fn lemma_occluder_lines_vertices_by_line(
    lines: Seq<LineBits>,
    height: u32,
    ignore1: Option<u32>,
    ignore2: Option<u32>,
)
    ensures
        occluder_lines_vertices(lines, height, ignore1, ignore2).len() == 4 * lines.len(),
        forall|j: int, k: int|
            0 <= j < lines.len() && 0 <= k < 4 ==> #[trigger] occluder_lines_vertices(
                lines,
                height,
                ignore1,
                ignore2,
            )[4 * j + k] == #[trigger] occluder_line_vertices(lines[j], height, ignore1, ignore2)[k],
    decreases lines.len(),
{
    lemma_lines_vertices_len(lines, height, ignore1, ignore2);
    if lines.len() > 0 {
        let init = lines.drop_last();
        lemma_occluder_lines_vertices_by_line(init, height, ignore1, ignore2);
        assert forall|j: int, k: int| 0 <= j < lines.len() && 0 <= k < 4 implies #[trigger] occluder_lines_vertices(
            lines,
            height,
            ignore1,
            ignore2,
        )[4 * j + k] == #[trigger] occluder_line_vertices(lines[j], height, ignore1, ignore2)[k] by {
            if j < init.len() {
                assert(lines[j] == init[j]);
                assert(occluder_line_vertices(init[j], height, ignore1, ignore2)[k] == occluder_lines_vertices(init, height, ignore1, ignore2)[4 * j + k]);
            }
        }
    }
}

/// `count` consecutive element indices starting at `start`.
pub open spec fn consecutive_elements(start: nat, count: nat) -> Seq<u32> {
    Seq::new(count, |j: int| (start + j) as u32)
}

/// Writes several occluder lines of one occluder, one after the other, as
/// [`occluder_line_write`] writes each: the elements are consecutive
/// indices from the number of elements already written.
pub fn occluder_lines_write(
    lines: &Vec<LineBits>,
    height: u32,
    ignore1: Option<u32>,
    ignore2: Option<u32>,
    elements: &mut Vec<u32>,
    vertices: &mut Vec<OccluderLineVertex>,
)
    requires
        old(elements)@.len() + 4 * lines@.len() <= u32::MAX + 1,
        light_index_fits(ignore1),
        light_index_fits(ignore2),
    ensures
        final(elements)@ == old(elements)@ + consecutive_elements(
            old(elements)@.len(),
            4 * lines@.len(),
        ),
        final(vertices)@ == old(vertices)@ + occluder_lines_vertices(
            lines@,
            height,
            ignore1,
            ignore2,
        ),
        old(elements)@.len() == old(vertices)@.len() ==> {
            &&& final(elements)@.len() == final(vertices)@.len()
            &&& forall|k: int|
                old(elements)@.len() <= k < final(elements)@.len() ==> old(vertices)@.len()
                    <= #[trigger] final(elements)@[k] < final(vertices)@.len()
        },
{
    let ghost e0 = elements@;
    let ghost v0 = vertices@;
    let mut i: usize = 0;
    while i < lines.len()
        invariant
            i <= lines@.len(),
            e0.len() + 4 * lines@.len() <= u32::MAX + 1,
            light_index_fits(ignore1),
            light_index_fits(ignore2),
            elements@ == e0 + consecutive_elements(e0.len(), 4 * i as nat),
            vertices@ == v0 + occluder_lines_vertices(lines@.take(i as int), height, ignore1, ignore2),
        decreases lines@.len() - i,
    {
        let ghost e1 = elements@;
        let ghost v1 = vertices@;
        occluder_line_write(lines[i], height, ignore1, ignore2, elements, vertices);
        assert(lines@.take(i + 1).drop_last() =~= lines@.take(i as int));
        assert(elements@ =~= e0 + consecutive_elements(e0.len(), 4 * (i + 1) as nat));
        assert(vertices@ =~= v0 + occluder_lines_vertices(lines@.take(i + 1), height, ignore1, ignore2));
        i += 1;
    }
    assert(lines@.take(lines@.len() as int) =~= lines@);
    proof {
        lemma_lines_vertices_len(lines@, height, ignore1, ignore2);
    }
}

/// The lines around a circle through the given points: from each point to
/// the next, and from the last back to the first.
pub open spec fn circle_lines(points: Seq<PointBits>) -> Seq<LineBits> {
    polygon_edges(points.len()).map_values(|e: (usize, usize)| (points[e.0 as int], points[e.1 as int]))
}

/// Writes an occluder circle through the given points, as the lines
/// around it (see [`circle_lines`]).
pub fn occluder_circle_write(
    points: &Vec<PointBits>,
    height: u32,
    ignore1: Option<u32>,
    ignore2: Option<u32>,
    elements: &mut Vec<u32>,
    vertices: &mut Vec<OccluderLineVertex>,
)
    requires
        points@.len() > 0,
        old(elements)@.len() + 4 * points@.len() <= u32::MAX + 1,
        light_index_fits(ignore1),
        light_index_fits(ignore2),
    ensures
        final(elements)@ == old(elements)@ + consecutive_elements(
            old(elements)@.len(),
            4 * points@.len(),
        ),
        final(vertices)@ == old(vertices)@ + occluder_lines_vertices(
            circle_lines(points@),
            height,
            ignore1,
            ignore2,
        ),
        old(elements)@.len() == old(vertices)@.len() ==> {
            &&& final(elements)@.len() == final(vertices)@.len()
            &&& forall|k: int|
                old(elements)@.len() <= k < final(elements)@.len() ==> old(vertices)@.len()
                    <= #[trigger] final(elements)@[k] < final(vertices)@.len()
        },
{
    let edges = circle_edges(points.len());
    let mut lines: Vec<LineBits> = Vec::new();
    let mut i: usize = 0;
    while i < edges.len()
        invariant
            edges@ == polygon_edges(points@.len()),
            i <= edges@.len(),
            lines@ == circle_lines(points@).take(i as int),
        decreases edges@.len() - i,
    {
        let (a, b) = edges[i];
        proof {
            vstd::arithmetic::div_mod::lemma_mod_bound((i + 1) as int, points@.len() as int);
        }
        lines.push((points[a], points[b]));
        assert(lines@ =~= circle_lines(points@).take(i + 1));
        i += 1;
    }
    assert(lines@ =~= circle_lines(points@));
    occluder_lines_write(&lines, height, ignore1, ignore2, elements, vertices);
    proof {
        lemma_lines_vertices_len(lines@, height, ignore1, ignore2);
    }
}

/// The triangles of a light's circle segment whose first vertex, the
/// light's center, has index `start`, followed by `num_segments + 1`
/// vertices on the arc. Each triangle joins the center with two
/// neighboring arc vertices; when the segment is a full circle, a last
/// triangle closes it.
pub open spec fn circle_segment_triangles(start: u32, num_segments: nat, full_circle: bool) -> Seq<
    u32,
> {
    Seq::new(
        3 * num_segments,
        |k: int|
            {
                let i = k / 3;
                if k % 3 == 0 {
                    start
                } else if k % 3 == 1 {
                    (start + 1 + (i + 1) % ((num_segments + 1) as int)) as u32
                } else {
                    (start + 1 + i) as u32
                }
            },
    ) + if full_circle {
        seq![start, (start + 1 + num_segments) as u32, (start + 1) as u32]
    } else {
        seq![]
    }
}

/// Each triangle of a circle segment joins the center with two
/// neighbouring arc vertices, the later one first: triangle `i` is
/// `(start, start + 2 + i, start + 1 + i)`. A full circle adds one triangle
/// joining the center with the last and the first arc vertex.
pub proof fn lemma_circle_segment_triangles_join_neighbours(
    start: u32,
    num_segments: nat,
    full_circle: bool,
)
    requires
        start + 1 + num_segments <= u32::MAX,
    ensures
        ({
            let t = circle_segment_triangles(start, num_segments, full_circle);
            &&& t.len() == 3 * num_segments + (if full_circle { 3int } else { 0int })
            &&& forall|i: int|
                0 <= i < num_segments ==> #[trigger] t[3 * i] == start && t[3 * i + 1] == start + 2
                    + i && t[3 * i + 2] == start + 1 + i
            &&& full_circle ==> t[3 * num_segments as int] == start && t[3 * num_segments + 1
                as int] == start + 1 + num_segments && t[3 * num_segments + 2 as int] == start + 1
        }),
{
    let t = circle_segment_triangles(start, num_segments, full_circle);
    assert forall|i: int| 0 <= i < num_segments implies #[trigger] t[3 * i] == start && t[3 * i
        + 1] == start + 2 + i && t[3 * i + 2] == start + 1 + i by {
        assert((3 * i) / 3 == i && (3 * i) % 3 == 0) by (nonlinear_arith);
        assert((3 * i + 1) / 3 == i && (3 * i + 1) % 3 == 1) by (nonlinear_arith);
        assert((3 * i + 2) / 3 == i && (3 * i + 2) % 3 == 2) by (nonlinear_arith);
        assert((i + 1) % ((num_segments + 1) as int) == i + 1) by {
            vstd::arithmetic::div_mod::lemma_small_mod((i + 1) as nat, (num_segments + 1) as nat);
        }
    }
}

/// Appends the triangles of a light's circle segment (see
/// [`circle_segment_triangles`]).
pub fn circle_segment_elements(
    elements: &mut Vec<u32>,
    start: u32,
    num_segments: usize,
    full_circle: bool,
)
    requires
        start + 1 + num_segments <= u32::MAX,
    ensures
        final(elements)@ == old(elements)@ + circle_segment_triangles(
            start,
            num_segments as nat,
            full_circle,
        ),
{
    let ghost tri = Seq::new(
        3 * num_segments as nat,
        |k: int|
            {
                let i = k / 3;
                if k % 3 == 0 {
                    start
                } else if k % 3 == 1 {
                    (start + 1 + (i + 1) % (num_segments + 1)) as u32
                } else {
                    (start + 1 + i) as u32
                }
            },
    );
    let mut i: usize = 0;
    while i < num_segments
        invariant
            start + 1 + num_segments <= u32::MAX,
            i <= num_segments,
            elements@ == old(elements)@ + tri.take(3 * i),
            tri == Seq::new(
                3 * num_segments as nat,
                |k: int|
                    {
                        let i = k / 3;
                        if k % 3 == 0 {
                            start
                        } else if k % 3 == 1 {
                            (start + 1 + (i + 1) % (num_segments + 1)) as u32
                        } else {
                            (start + 1 + i) as u32
                        }
                    },
            ),
        decreases num_segments - i,
    {
        let next = ((i + 1) % (num_segments + 1)) as u32;
        elements.push(start);
        elements.push(start + 1 + next);
        elements.push(start + 1 + i as u32);
        assert(tri[3 * i] == start);
        assert(tri[3 * i + 1] == (start + 1 + (i + 1) % (num_segments + 1)) as u32);
        assert(tri[3 * i + 2] == (start + 1 + i) as u32);
        assert(elements@ =~= old(elements)@ + tri.take(3 * i + 3));
        i += 1;
    }
    assert(tri.take(3 * num_segments) =~= tri);
    if full_circle {
        elements.push(start);
        elements.push(start + 1 + num_segments as u32);
        elements.push(start + 1);
    }
    assert(elements@ =~= old(elements)@ + circle_segment_triangles(
        start,
        num_segments as nat,
        full_circle,
    ));
}

/// The lines around a polygon of `n` points: point `i` to point `i + 1`,
/// and the last point back to the first.
pub open spec fn polygon_edges(n: nat) -> Seq<(usize, usize)> {
    Seq::new(n, |i: int| (i as usize, ((i + 1) % (n as int)) as usize))
}

/// Each edge of a polygon of `n` points joins a point with the next one,
/// and the last edge joins the last point with the first.
pub proof fn lemma_polygon_edges_join_neighbours(n: nat)
    requires
        n > 0,
    ensures
        polygon_edges(n).len() == n,
        forall|i: int| 0 <= i < n - 1 ==> #[trigger] polygon_edges(n)[i] == (i as usize, (i + 1) as usize),
        polygon_edges(n)[n - 1] == ((n - 1) as usize, 0usize),
{
    assert forall|i: int| 0 <= i < n - 1 implies #[trigger] polygon_edges(n)[i] == (i as usize, (i + 1) as usize) by {
        vstd::arithmetic::div_mod::lemma_small_mod((i + 1) as nat, n);
    }
    vstd::arithmetic::div_mod::lemma_mod_self_0(n as int);
}

/// Each line around a circle runs from a point to the next one, and the
/// last line from the last point back to the first.
pub proof fn lemma_circle_lines_join_neighbours(points: Seq<PointBits>)
    requires
        0 < points.len() <= usize::MAX,
    ensures
        circle_lines(points).len() == points.len(),
        forall|i: int| 0 <= i < points.len() - 1 ==> #[trigger] circle_lines(points)[i] == (points[i], points[i + 1]),
        circle_lines(points)[points.len() - 1] == (points[points.len() - 1], points[0]),
{
    lemma_polygon_edges_join_neighbours(points.len());
    assert forall|i: int| 0 <= i < points.len() - 1 implies #[trigger] circle_lines(points)[i] == (points[i], points[i + 1]) by {
        let e = polygon_edges(points.len())[i];
        assert(e == (i as usize, (i + 1) as usize));
        assert(e.0 as int == i && e.1 as int == i + 1);
    }
    let last = polygon_edges(points.len())[points.len() - 1];
    assert(last == ((points.len() - 1) as usize, 0usize));
    assert(last.0 as int == points.len() - 1);
}

/// The pairs of point indices that an occluder circle of `n` points draws
/// lines between, in order.
pub fn circle_edges(n: usize) -> (r: Vec<(usize, usize)>)
    requires
        n > 0,
    ensures
        r@ == polygon_edges(n as nat),
{
    let mut r: Vec<(usize, usize)> = Vec::new();
    let mut i: usize = 0;
    while i < n - 1
        invariant
            n > 0,
            i <= n - 1,
            r@ == polygon_edges(n as nat).take(i as int),
        decreases n - 1 - i,
    {
        r.push((i, (i + 1) % n));
        assert(r@ =~= polygon_edges(n as nat).take(i + 1));
        i += 1;
    }
    r.push((n - 1, 0));
    assert((((n - 1) as int) + 1) % (n as int) == 0) by {
        vstd::arithmetic::div_mod::lemma_mod_self_0(n as int);
    }
    assert(r@ =~= polygon_edges(n as nat));
    r
}

} // verus!
