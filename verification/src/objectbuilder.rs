use crate::vertex::mVertex;
use vstd::prelude::*;

verus! {

/// The twelve triangles of a box, as 36 vertices, from its eight corners.
///
/// The corners come in the order left-back-upper, right-back-upper,
/// left-front-upper, right-front-upper, then the four lower ones in the same
/// order. The faces come in the order upper, lower, front, back, left, right,
/// two triangles each.
pub open spec fn cuboid_triangles<V>(c: Seq<V>) -> Seq<V> {
    seq![
        c[0], c[1], c[2], c[2], c[3], c[1],
        c[4], c[5], c[6], c[6], c[7], c[5],
        c[2], c[3], c[6], c[6], c[7], c[3],
        c[0], c[1], c[4], c[4], c[5], c[1],
        c[0], c[2], c[4], c[4], c[6], c[2],
        c[1], c[3], c[5], c[5], c[7], c[3],
    ]
}

/// The triangles of the box with the given corners.
pub fn cuboid<V: Copy>(corners: &[V; 8]) -> (vertexes: Vec<V>)
    ensures
        vertexes@ == cuboid_triangles(corners@),
{
    let lbu = corners[0];
    let rbu = corners[1];
    let lfu = corners[2];
    let rfu = corners[3];
    let lbl = corners[4];
    let rbl = corners[5];
    let lfl = corners[6];
    let rfl = corners[7];
    let vertexes = vec![
        lbu, rbu, lfu, lfu, rfu, rbu,  // upper square
        lbl, rbl, lfl, lfl, rfl, rbl,  // lower square
        lfu, rfu, lfl, lfl, rfl, rfu,  // front square
        lbu, rbu, lbl, lbl, rbl, rbu,  // back square
        lbu, lfu, lbl, lbl, lfl, lfu,  // left square
        rbu, rfu, rbl, rbl, rfl, rfu,  // right square
    ];
    assert(vertexes@ =~= cuboid_triangles(corners@));
    vertexes
}

/// The two triangles that span the ribbon between the rails `left` and
/// `right` from the point `i` to the point `i + 1`, each vertex with the
/// colour of the segment.
pub open spec fn segment_triangles<P, C>(left: Seq<P>, right: Seq<P>, colors: Seq<C>, i: int) -> Seq<
    (P, C),
> {
    seq![
        (left[i], colors[i]),
        (left[i + 1], colors[i]),
        (right[i], colors[i]),
        (right[i], colors[i]),
        (left[i + 1], colors[i]),
        (right[i + 1], colors[i]),
    ]
}

/// The triangles of the first `count` segments of the ribbon, one segment
/// after the other.
pub open spec fn ribbon_triangles<P, C>(left: Seq<P>, right: Seq<P>, colors: Seq<C>, count: nat) -> Seq<
    (P, C),
>
    decreases count,
{
    if count == 0 {
        Seq::empty()
    } else {
        ribbon_triangles(left, right, colors, (count - 1) as nat) + segment_triangles(
            left,
            right,
            colors,
            count - 1,
        )
    }
}

/// The triangles of a ribbon that runs along a line of points. The rails
/// `left_points` and `right_points` hold, for each point of the line, the
/// point to its left and the point to its right; `colors` holds one colour
/// for each segment.
pub fn polyline<P: Copy, C: Copy>(left_points: &Vec<P>, right_points: &Vec<P>, colors: &Vec<C>) -> (vertexes:
    Vec<(P, C)>)
    requires
        left_points@.len() > 1,
        left_points@.len() == right_points@.len(),
        left_points@.len() - 1 == colors@.len(),
    ensures
        vertexes@ == ribbon_triangles(left_points@, right_points@, colors@, colors@.len()),
{
    let mut vertexes: Vec<(P, C)> = Vec::new();
    for i in 0..colors.len()
        invariant
            left_points@.len() == right_points@.len(),
            left_points@.len() - 1 == colors@.len(),
            vertexes@ == ribbon_triangles(left_points@, right_points@, colors@, i as nat),
    {
        let color = colors[i];
        let mut segment = vec![
            (left_points[i], color),
            (left_points[i + 1], color),
            (right_points[i], color),
            (right_points[i], color),
            (left_points[i + 1], color),
            (right_points[i + 1], color),
        ];
        assert(segment@ =~= segment_triangles(left_points@, right_points@, colors@, i as int));
        vertexes.append(&mut segment);
    }
    vertexes
}

/// Half red, nine tenths green, half blue, opaque.
pub const GREEN: [u8; 4] = [5, 9, 5, 10];

/// Half red, half green, nine tenths blue, opaque.
pub const BLUE: [u8; 4] = [5, 5, 9, 10];

/// Nine tenths red, half green, half blue, opaque.
pub const RED: [u8; 4] = [9, 5, 5, 10];

/// Half of each, opaque.
pub const GREY: [u8; 4] = [5, 5, 5, 10];

/// The corners of the unit cube whose least corner is `(x, y, z)`, in the
/// order that `cuboid_triangles` takes them in. The upper corners are those
/// at height `y`, the lower ones those at `y + 1`.
pub open spec fn unit_cube_corners(x: int, y: int, z: int) -> Seq<mVertex> {
    seq![
        mVertex { loc: [x as i64, y as i64, z as i64], color: GREEN },
        mVertex { loc: [(x + 1) as i64, y as i64, z as i64], color: BLUE },
        mVertex { loc: [x as i64, y as i64, (z + 1) as i64], color: RED },
        mVertex { loc: [(x + 1) as i64, y as i64, (z + 1) as i64], color: GREEN },
        mVertex { loc: [x as i64, (y + 1) as i64, z as i64], color: BLUE },
        mVertex { loc: [(x + 1) as i64, (y + 1) as i64, z as i64], color: RED },
        mVertex { loc: [x as i64, (y + 1) as i64, (z + 1) as i64], color: GREY },
        mVertex { loc: [(x + 1) as i64, (y + 1) as i64, (z + 1) as i64], color: GREY },
    ]
}

/// The triangles of the unit cube whose least corner is `(x, y, z)`.
pub open spec fn unit_cube_triangles(x: int, y: int, z: int) -> Seq<mVertex> {
    cuboid_triangles(unit_cube_corners(x, y, z))
}

/// The triangles of the unit cube whose least corner is `(x, y, z)`.
pub fn unit_cube(x: i64, y: i64, z: i64) -> (vertexes: Vec<mVertex>)
    requires
        x < i64::MAX,
        y < i64::MAX,
        z < i64::MAX,
    ensures
        vertexes@ == unit_cube_triangles(x as int, y as int, z as int),
{
    let corners = [
        mVertex::new([x, y, z], GREEN),
        mVertex::new([x + 1, y, z], BLUE),
        mVertex::new([x, y, z + 1], RED),
        mVertex::new([x + 1, y, z + 1], GREEN),
        mVertex::new([x, y + 1, z], BLUE),
        mVertex::new([x + 1, y + 1, z], RED),
        mVertex::new([x, y + 1, z + 1], GREY),
        mVertex::new([x + 1, y + 1, z + 1], GREY),
    ];
    assert(corners@ =~= unit_cube_corners(x as int, y as int, z as int));
    cuboid(&corners)
}

} // verus!
