//! Colours and geometry helpers.

use vstd::prelude::*;

verus! {

/// An opaque colour by its red, green and blue parts.
#[derive(Clone, Copy, Debug, PartialEq, Eq, Structural)]
pub struct Color {
    pub r: u8,
    pub g: u8,
    pub b: u8,
}

/// A point in fixed-point pixels.
#[derive(Clone, Copy, Debug, PartialEq, Eq, Structural)]
pub struct Point2 {
    pub x: i64,
    pub y: i64,
}

/// An axis-aligned rectangle by its corner and its extent.
#[derive(Clone, Copy, Debug, PartialEq, Eq, Structural)]
pub struct Rect {
    pub x: i64,
    pub y: i64,
    pub w: i64,
    pub h: i64,
}

pub fn backround_color() -> (color: Color)
    ensures
        color == (Color { r: 16, g: 16, b: 16 }),
{
    Color { r: 16, g: 16, b: 16 }
}

pub fn ammo_color() -> (color: Color)
    ensures
        color == (Color { r: 123, g: 200, b: 164 }),
{
    Color { r: 123, g: 200, b: 164 }
}

pub fn boost_color() -> (color: Color)
    ensures
        color == (Color { r: 76, g: 195, b: 217 }),
{
    Color { r: 76, g: 195, b: 217 }
}

pub fn hp_color() -> (color: Color)
    ensures
        color == (Color { r: 241, g: 103, b: 69 }),
{
    Color { r: 241, g: 103, b: 69 }
}

/// The corners of a rectangle: the corner it is given by, then the others
/// in the order that keeps `x + w` before `y + h`.
pub open spec fn rect_corners(rect: Rect) -> Seq<Point2> {
    seq![
        Point2 { x: rect.x, y: rect.y },
        Point2 { x: (rect.x + rect.w) as i64, y: rect.y },
        Point2 { x: (rect.x + rect.w) as i64, y: (rect.y + rect.h) as i64 },
        Point2 { x: rect.x, y: (rect.y + rect.h) as i64 },
    ]
}

pub fn rect_to_polygon(rect: Rect) -> (polygon: Vec<Point2>)
    requires
        i64::MIN <= rect.x + rect.w <= i64::MAX,
        i64::MIN <= rect.y + rect.h <= i64::MAX,
    ensures
        polygon@ == rect_corners(rect),
{
    let x1 = rect.x;
    let x2 = rect.x + rect.w;
    let y1 = rect.y;
    let y2 = rect.y + rect.h;
    let mut polygon: Vec<Point2> = Vec::new();
    polygon.push(Point2 { x: x1, y: y1 });
    polygon.push(Point2 { x: x2, y: y1 });
    polygon.push(Point2 { x: x2, y: y2 });
    polygon.push(Point2 { x: x1, y: y2 });
    assert(polygon@ =~= rect_corners(rect));
    polygon
}

} // verus!
