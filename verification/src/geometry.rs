//! Geometry and hit-testing: axis-aligned containment, the pad rectangle
//! left inside a widget's frame, squared pixel distance and corner
//! classification.

use vstd::prelude::*;
use crate::mapping::{in_unit_range, MAX_UNIT};

verus! {

/// A pixel position.  The vertical axis grows downward, as on a screen.
#[derive(Clone, Copy, Debug, PartialEq, Eq, Structural)]
pub struct Point {
    pub x: i64,
    pub y: i64,
}

/// A widget's outer size in pixels.
#[derive(Clone, Copy, Debug, PartialEq, Eq, Structural)]
pub struct Dimensions {
    pub w: i64,
    pub h: i64,
}

/// The point's coordinates are within the library's working range.
pub open spec fn point_wf(p: Point) -> bool {
    in_unit_range(p.x) && in_unit_range(p.y)
}

/// The wider range computed pixel positions may reach: a working-range
/// position pushed by a frame width and a pad extent.
pub open spec fn pix_range(v: i64) -> bool {
    -2 * MAX_UNIT <= v <= 2 * MAX_UNIT
}

/// The point's coordinates are within the computed pixel range.
pub open spec fn pix_point_wf(p: Point) -> bool {
    pix_range(p.x) && pix_range(p.y)
}

/// The size is nonnegative and within the library's working range.
pub open spec fn dim_wf(d: Dimensions) -> bool {
    0 <= d.w <= MAX_UNIT && 0 <= d.h <= MAX_UNIT
}

/// The shade a widget's surrounding rectangle is drawn with, handed to the
/// renderer.
#[derive(Clone, Copy, Debug, PartialEq, Eq, Structural)]
pub enum RectState {
    Normal,
    Highlighted,
    Clicked,
}

/// The point lies within the rectangle at `pos` of size `dim`, edges
/// included.
pub open spec fn is_over_spec(pos: Point, dim: Dimensions, p: Point) -> bool {
    &&& pos.x <= p.x <= pos.x + dim.w
    &&& pos.y <= p.y <= pos.y + dim.h
}

/// Axis-aligned containment test, inclusive of the rectangle's edges.
pub fn is_over(pos: Point, dim: Dimensions, p: Point) -> (r: bool)
    requires
        pix_point_wf(pos),
        dim_wf(dim),
    ensures
        r == is_over_spec(pos, dim, p),
{
    pos.x <= p.x && p.x <= pos.x + dim.w && pos.y <= p.y && p.y <= pos.y + dim.h
}

/// The quadrant of a rectangle that a point falls in, used to anchor an
/// overlay label away from the rectangle's nearest edge.
#[derive(Clone, Copy, Debug, PartialEq, Eq, Structural)]
pub enum Corner {
    TopLeft,
    TopRight,
    BottomLeft,
    BottomRight,
}

/// Which quadrant of the rectangle at `pos` of size `dim` the point `p`
/// falls in: the left half is where `p` sits at or left of the midline,
/// the top half where it sits at or above it.
pub open spec fn corner_spec(pos: Point, p: Point, dim: Dimensions) -> Corner {
    let left = 2 * (p.x - pos.x) <= dim.w;
    let top = 2 * (p.y - pos.y) <= dim.h;
    if left && top {
        Corner::TopLeft
    } else if top {
        Corner::TopRight
    } else if left {
        Corner::BottomLeft
    } else {
        Corner::BottomRight
    }
}

/// Classify the quadrant of the rectangle that the point falls in.
pub fn corner(pos: Point, p: Point, dim: Dimensions) -> (r: Corner)
    requires
        pix_point_wf(pos),
        pix_point_wf(p),
        dim_wf(dim),
    ensures
        r == corner_spec(pos, p, dim),
{
    let left = 2 * (p.x - pos.x) <= dim.w;
    let top = 2 * (p.y - pos.y) <= dim.h;
    if left && top {
        Corner::TopLeft
    } else if top {
        Corner::TopRight
    } else if left {
        Corner::BottomLeft
    } else {
        Corner::BottomRight
    }
}

/// The inner pad rectangle: the widget's rectangle with the frame of width
/// `frame_w` taken off every side.
pub open spec fn pad_pos_spec(pos: Point, frame_w: i64) -> Point {
    Point { x: (pos.x + frame_w) as i64, y: (pos.y + frame_w) as i64 }
}

/// The inner pad size: the widget's size less twice the frame width.
pub open spec fn pad_dim_spec(dim: Dimensions, frame_w: i64) -> Dimensions {
    Dimensions { w: (dim.w - 2 * frame_w) as i64, h: (dim.h - 2 * frame_w) as i64 }
}

/// A frame width that leaves a nonempty pad inside the widget.
pub open spec fn frame_fits(dim: Dimensions, frame_w: i64) -> bool {
    &&& 0 <= frame_w
    &&& 2 * frame_w < dim.w
    &&& 2 * frame_w < dim.h
}

/// Compute the pad rectangle's position inside the frame.
pub fn pad_pos(pos: Point, frame_w: i64) -> (r: Point)
    requires
        point_wf(pos),
        0 <= frame_w <= MAX_UNIT,
    ensures
        r == pad_pos_spec(pos, frame_w),
        pix_point_wf(r),
{
    Point { x: pos.x + frame_w, y: pos.y + frame_w }
}

/// Compute the pad rectangle's size inside the frame.
pub fn pad_dim(dim: Dimensions, frame_w: i64) -> (r: Dimensions)
    requires
        dim_wf(dim),
        frame_fits(dim, frame_w),
    ensures
        r == pad_dim_spec(dim, frame_w),
        dim_wf(r),
        r.w > 0 && r.h > 0,
{
    Dimensions { w: dim.w - 2 * frame_w, h: dim.h - 2 * frame_w }
}

/// The pad rectangle's corners stay within the computed pixel range.
pub open spec fn pad_box_wf(ppos: Point, pdim: Dimensions) -> bool {
    &&& -2 * MAX_UNIT <= ppos.x && ppos.x + pdim.w <= 2 * MAX_UNIT
    &&& -2 * MAX_UNIT <= ppos.y && ppos.y + pdim.h <= 2 * MAX_UNIT
    &&& dim_wf(pdim)
    &&& pdim.w > 0 && pdim.h > 0
}

/// The squared Euclidean distance between two pixel positions.
pub open spec fn dist2_spec(a: Point, b: Point) -> int {
    (a.x - b.x) * (a.x - b.x) + (a.y - b.y) * (a.y - b.y)
}

/// Compute the squared distance between two pixel positions.  The working
/// range keeps the squares within `i128`.
pub fn dist2(a: Point, b: Point) -> (r: i128)
    requires
        point_wf(a),
        -2 * MAX_UNIT <= b.x <= 2 * MAX_UNIT,
        -2 * MAX_UNIT <= b.y <= 2 * MAX_UNIT,
    ensures
        r == dist2_spec(a, b),
        r >= 0,
{
    let dx: i128 = (a.x as i128) - (b.x as i128);
    let dy: i128 = (a.y as i128) - (b.y as i128);
    proof {
        assert(0 <= dx * dx <= 0x10000000000000000int && 0 <= dy * dy <= 0x10000000000000000int)
            by (nonlinear_arith)
            requires
                -(0x100000000int) <= dx <= 0x100000000int,
                -(0x100000000int) <= dy <= 0x100000000int,
        ;
    }
    dx * dx + dy * dy
}

} // verus!
