use vstd::prelude::*;

verus! {

/// A pixel position on the canvas.
#[derive(Clone, Copy, Debug, PartialEq, Eq, Structural)]
pub struct Point {
    pub x: u32,
    pub y: u32,
}

/// One of the three triangle vertices.
#[derive(Clone, Copy, Debug, PartialEq, Eq, Structural)]
pub enum Corner {
    BottomLeft,
    BottomRight,
    Top,
}

/// The vertex that a draw from `0..3` selects: 0 the bottom-left, 1 the
/// bottom-right, 2 the top-center.
pub open spec fn spec_corner_of(k: u32) -> Corner {
    if k == 0 {
        Corner::BottomLeft
    } else if k == 1 {
        Corner::BottomRight
    } else {
        Corner::Top
    }
}

/// The vertex that a draw from `0..3` selects.
pub fn corner_of(k: u32) -> (r: Corner)
    requires
        k < 3,
    ensures
        r == spec_corner_of(k),
{
    if k == 0 {
        Corner::BottomLeft
    } else if k == 1 {
        Corner::BottomRight
    } else {
        Corner::Top
    }
}

/// The vertex positions for a canvas of the given size: bottom-left
/// `(0, height)`, bottom-right `(width, height)` and top-center
/// `(width / 2, 0)`.
pub open spec fn corner_point(width: u32, height: u32, c: Corner) -> Point {
    match c {
        Corner::BottomLeft => Point { x: 0, y: height },
        Corner::BottomRight => Point { x: width, y: height },
        Corner::Top => Point { x: width / 2, y: 0 },
    }
}

/// Whether `p` lies on a canvas of the given size.
pub open spec fn in_bounds(p: Point, width: u32, height: u32) -> bool {
    p.x < width && p.y < height
}

/// The point halfway between `p` and `q`, rounded down on each axis.
pub open spec fn midpoint(p: Point, q: Point) -> Point {
    Point { x: ((p.x + q.x) / 2) as u32, y: ((p.y + q.y) / 2) as u32 }
}

/// The three vertices, in the order bottom-left, bottom-right, top-center.
pub fn corners(width: u32, height: u32) -> (r: [Point; 3])
    ensures
        r@ == seq![
            corner_point(width, height, Corner::BottomLeft),
            corner_point(width, height, Corner::BottomRight),
            corner_point(width, height, Corner::Top),
        ],
{
    let r = [
        corner_point_exec(width, height, Corner::BottomLeft),
        corner_point_exec(width, height, Corner::BottomRight),
        corner_point_exec(width, height, Corner::Top),
    ];
    assert(r@ =~= seq![r[0], r[1], r[2]]);
    r
}

/// The position of one vertex on a canvas of the given size.
pub fn corner_point_exec(width: u32, height: u32, c: Corner) -> (r: Point)
    ensures
        r == corner_point(width, height, c),
{
    match c {
        Corner::BottomLeft => Point { x: 0, y: height },
        Corner::BottomRight => Point { x: width, y: height },
        Corner::Top => Point { x: width / 2, y: 0 },
    }
}

/// One move of the walk: halfway from `p` towards the vertex `c`.
/// From a point on the canvas the move always lands on the canvas.
pub fn step(width: u32, height: u32, p: Point, c: Corner) -> (r: Point)
    requires
        in_bounds(p, width, height),
    ensures
        r == midpoint(p, corner_point(width, height, c)),
        in_bounds(r, width, height),
{
    let q = corner_point_exec(width, height, c);
    let x = ((p.x as u64 + q.x as u64) / 2) as u32;
    let y = ((p.y as u64 + q.y as u64) / 2) as u32;
    Point { x, y }
}

} // verus!
