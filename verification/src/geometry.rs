//! Plain geometric values: colors, vertices, boxes and rectangles.
//!
//! Positions are integer device pixels; colors are 8-bit RGBA. The host
//! converts to whatever normalized space its renderer wants.

use vstd::prelude::*;

verus! {

/// An RGBA color with 8-bit channels.
#[derive(Clone, Copy, PartialEq, Eq, Structural, Debug)]
pub struct Color {
    pub r: u8,
    pub g: u8,
    pub b: u8,
    pub a: u8,
}

/// A 2D position together with a color; the element of strokes and of the
/// line-list batches handed to the renderer.
#[derive(Clone, Copy, PartialEq, Eq, Structural, Debug)]
pub struct Vertex {
    pub x: i32,
    pub y: i32,
    pub color: Color,
}

/// An axis-aligned box given by its top-left corner and its extent, used for
/// the cached bounds of text annotations and for viewport clamping.
#[derive(Clone, Copy, PartialEq, Eq, Structural, Debug)]
pub struct Rect {
    pub x: i32,
    pub y: i32,
    pub width: i32,
    pub height: i32,
}

/// A rectangle annotation: the two corners of a drag gesture plus a color.
/// The corners may come in any order; the edge list emitted by
/// [`Rectangle::to_vertices`] describes the axis-aligned box they span.
#[derive(Clone, Copy, PartialEq, Eq, Structural, Debug)]
pub struct Rectangle {
    pub first_x: i32,
    pub first_y: i32,
    pub last_x: i32,
    pub last_y: i32,
    pub color: Color,
}

/// Containment of a point in a box, inclusive on all four edges.
pub open spec fn rect_contains_spec(r: Rect, x: int, y: int) -> bool {
    r.x <= x <= r.x + r.width && r.y <= y <= r.y + r.height
}

/// Inclusive point-in-box test.
pub fn rect_contains(r: &Rect, x: i32, y: i32) -> (b: bool)
    ensures
        b == rect_contains_spec(*r, x as int, y as int),
{
    (r.x as i64) <= (x as i64) && (x as i64) <= (r.x as i64) + (r.width as i64)
        && (r.y as i64) <= (y as i64) && (y as i64) <= (r.y as i64) + (r.height as i64)
}

/// Squared Euclidean distance between two points.
pub open spec fn square_distance(x1: int, y1: int, x2: int, y2: int) -> int {
    (x1 - x2) * (x1 - x2) + (y1 - y2) * (y1 - y2)
}

/// Whether two points lie within `limit` of each other, compared on the
/// squared distance so that no square root is needed.
pub fn within_square_distance(x1: i32, y1: i32, x2: i32, y2: i32, limit: i64) -> (b: bool)
    ensures
        b == (square_distance(x1 as int, y1 as int, x2 as int, y2 as int) <= limit as int),
{
    let dx: i64 = x1 as i64 - x2 as i64;
    let dy: i64 = y1 as i64 - y2 as i64;
    proof {
        assert(dx * dx <= 0x1_0000_0000_0000_0000i128 && dx * dx >= 0) by (nonlinear_arith)
            requires -0x1_0000_0000i128 <= dx <= 0x1_0000_0000i128;
        assert(dy * dy <= 0x1_0000_0000_0000_0000i128 && dy * dy >= 0) by (nonlinear_arith)
            requires -0x1_0000_0000i128 <= dy <= 0x1_0000_0000i128;
    }
    let sq: i128 = (dx as i128) * (dx as i128) + (dy as i128) * (dy as i128);
    sq <= limit as i128
}

/// The eight vertices of the four edges of the box spanned by a rectangle's
/// corners, each edge as an independent two-vertex segment for a line-list
/// primitive: bottom, right, top, left.
pub open spec fn rect_vertices(r: Rectangle) -> Seq<Vertex> {
    let (x1, y1, x2, y2, c) = (r.first_x, r.first_y, r.last_x, r.last_y, r.color);
    seq![
        Vertex { x: x1, y: y2, color: c },
        Vertex { x: x2, y: y2, color: c },
        Vertex { x: x2, y: y2, color: c },
        Vertex { x: x2, y: y1, color: c },
        Vertex { x: x2, y: y1, color: c },
        Vertex { x: x1, y: y1, color: c },
        Vertex { x: x1, y: y1, color: c },
        Vertex { x: x1, y: y2, color: c },
    ]
}

impl Rectangle {
    /// Expand the rectangle into line-list vertices: exactly eight, four
    /// independent two-vertex segments, one per edge of the axis-aligned box.
    pub fn to_vertices(&self) -> (out: Vec<Vertex>)
        ensures
            out@ == rect_vertices(*self),
    {
        let (x1, y1, x2, y2, c) = (self.first_x, self.first_y, self.last_x, self.last_y, self.color);
        let out: Vec<Vertex> = vec![
            Vertex { x: x1, y: y2, color: c },
            Vertex { x: x2, y: y2, color: c },
            Vertex { x: x2, y: y2, color: c },
            Vertex { x: x2, y: y1, color: c },
            Vertex { x: x2, y: y1, color: c },
            Vertex { x: x1, y: y1, color: c },
            Vertex { x: x1, y: y1, color: c },
            Vertex { x: x1, y: y2, color: c },
        ];
        proof {
            assert(out@ =~= rect_vertices(*self));
        }
        out
    }
}

} // verus!
