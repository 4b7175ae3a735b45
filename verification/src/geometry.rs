//! Integer points, rectangles and sizes in window pixels.

use pathfinder_geometry::rect::RectI;
use pathfinder_geometry::vector::Vector2I;
use vstd::prelude::*;

verus! {

/// A point (or an extent) in integer pixels.
#[derive(Clone, Copy, Debug, PartialEq, Eq, Structural)]
pub struct Point2DI32 {
    pub x: i32,
    pub y: i32,
}

/// An axis-aligned rectangle. The origin is inclusive, the lower right corner exclusive.
#[derive(Clone, Copy, Debug, PartialEq, Eq, Structural)]
pub struct RectI32 {
    pub origin: Point2DI32,
    pub lower_right: Point2DI32,
}

/// The size of a drawable surface in pixels.
#[derive(Clone, Copy, Debug, PartialEq, Eq, Structural)]
pub struct Size2D {
    pub width: u32,
    pub height: u32,
}

/// Whether `value` can be held in an `i32`.
pub open spec fn fits_i32(value: int) -> bool {
    i32::MIN <= value <= i32::MAX
}

/// `value` limited to the range of `i32`.
pub open spec fn clamp_i32(value: int) -> int {
    if value < i32::MIN {
        i32::MIN as int
    } else if value > i32::MAX {
        i32::MAX as int
    } else {
        value
    }
}

/// `Vector2I * i32` of pathfinder_geometry. Trusted: for products that fit in
/// `i32`, each coordinate of the result is that coordinate times `factor`.
#[verifier::external_body]
fn vector_scale(point: Point2DI32, factor: i32) -> (scaled: Point2DI32)
    requires
        fits_i32(point.x * factor),
        fits_i32(point.y * factor),
    ensures
        scaled.x == point.x * factor,
        scaled.y == point.y * factor,
{
    let vector = Vector2I::new(point.x, point.y) * factor;
    Point2DI32 { x: vector.x(), y: vector.y() }
}

/// `Vector2I + Vector2I` of pathfinder_geometry. Trusted: for sums that fit in
/// `i32`, each coordinate of the result is the sum of that coordinate of the
/// two vectors.
#[verifier::external_body]
fn vector_sum(point: Point2DI32, offset: Point2DI32) -> (sum: Point2DI32)
    requires
        fits_i32(point.x + offset.x),
        fits_i32(point.y + offset.y),
    ensures
        sum.x == point.x + offset.x,
        sum.y == point.y + offset.y,
{
    let vector = Vector2I::new(point.x, point.y) + Vector2I::new(offset.x, offset.y);
    Point2DI32 { x: vector.x(), y: vector.y() }
}

/// `RectI::new` of pathfinder_geometry. Trusted: for a lower right corner that
/// fits in `i32`, the rectangle keeps `origin` and ends at `origin + size`.
#[verifier::external_body]
fn rect_from_origin_and_size(origin: Point2DI32, size: Point2DI32) -> (rect: RectI32)
    requires
        fits_i32(origin.x + size.x),
        fits_i32(origin.y + size.y),
    ensures
        rect.origin == origin,
        rect.lower_right.x == origin.x + size.x,
        rect.lower_right.y == origin.y + size.y,
{
    let rect = RectI::new(Vector2I::new(origin.x, origin.y), Vector2I::new(size.x, size.y));
    RectI32 {
        origin: Point2DI32 { x: rect.origin().x(), y: rect.origin().y() },
        lower_right: Point2DI32 { x: rect.lower_right().x(), y: rect.lower_right().y() },
    }
}

/// `RectI::contains_point` of pathfinder_geometry. Trusted: where the lower
/// right corner can be moved back by one pixel without leaving `i32`, the
/// answer is whether `point` lies between the origin and that pixel, both
/// included, on each axis.
#[verifier::external_body]
fn rect_contains_point(rect: RectI32, point: Point2DI32) -> (inside: bool)
    requires
        rect.lower_right.x > i32::MIN,
        rect.lower_right.y > i32::MIN,
    ensures
        inside == rect.contains(point),
{
    let origin = Vector2I::new(rect.origin.x, rect.origin.y);
    let lower_right = Vector2I::new(rect.lower_right.x, rect.lower_right.y);
    RectI::from_points(origin, lower_right).contains_point(Vector2I::new(point.x, point.y))
}

impl Point2DI32 {
    pub fn new(x: i32, y: i32) -> (point: Point2DI32)
        ensures
            point.x == x,
            point.y == y,
    {
        Point2DI32 { x, y }
    }

    /// The point moved by `offset`.
    pub fn offset(self, offset: Point2DI32) -> (moved: Point2DI32)
        requires
            fits_i32(self.x + offset.x),
            fits_i32(self.y + offset.y),
        ensures
            moved.x == self.x + offset.x,
            moved.y == self.y + offset.y,
    {
        vector_sum(self, offset)
    }

    /// The point with both coordinates multiplied by `factor`, each limited to
    /// the range of `i32`.
    pub open spec fn scaled(self, factor: int) -> Point2DI32 {
        Point2DI32 {
            x: clamp_i32(self.x * factor) as i32,
            y: clamp_i32(self.y * factor) as i32,
        }
    }

    /// Multiplies both coordinates by `factor`. A product outside `i32` is
    /// limited to the nearest bound.
    pub fn scale(self, factor: i32) -> (scaled: Point2DI32)
        ensures
            scaled == self.scaled(factor as int),
    {
        let wide_x: i64 = widening_mul(self.x, factor);
        let wide_y: i64 = widening_mul(self.y, factor);
        if in_i32(wide_x) && in_i32(wide_y) {
            vector_scale(self, factor)
        } else {
            Point2DI32 { x: clamp_to_i32(wide_x), y: clamp_to_i32(wide_y) }
        }
    }
}

/// The product of two `i32` values, which always fits in an `i64`.
fn widening_mul(a: i32, b: i32) -> (product: i64)
    ensures
        product == a * b,
{
    assert(-0x4000_0000_0000_0000 <= a * b <= 0x4000_0000_0000_0000) by (nonlinear_arith)
        requires
            -0x8000_0000 <= a <= 0x8000_0000,
            -0x8000_0000 <= b <= 0x8000_0000,
    ;
    (a as i64) * (b as i64)
}

fn in_i32(value: i64) -> (fits: bool)
    ensures
        fits == fits_i32(value as int),
{
    -2147483648 <= value && value <= 2147483647
}

fn clamp_to_i32(value: i64) -> (clamped: i32)
    ensures
        clamped == clamp_i32(value as int),
{
    if value < -2147483648 {
        i32::MIN
    } else if value > 2147483647 {
        i32::MAX
    } else {
        value as i32
    }
}

impl RectI32 {
    /// Whether `point` lies inside: on or after the origin and strictly before
    /// the lower right corner, on both axes.
    pub open spec fn contains(self, point: Point2DI32) -> bool {
        &&& self.origin.x <= point.x < self.lower_right.x
        &&& self.origin.y <= point.y < self.lower_right.y
    }

    /// The rectangle at `origin` with extent `size`.
    pub fn new(origin: Point2DI32, size: Point2DI32) -> (rect: RectI32)
        requires
            fits_i32(origin.x + size.x),
            fits_i32(origin.y + size.y),
        ensures
            rect.origin == origin,
            rect.lower_right.x == origin.x + size.x,
            rect.lower_right.y == origin.y + size.y,
    {
        rect_from_origin_and_size(origin, size)
    }

    /// Hit test of one pixel.
    pub fn contains_point(&self, point: Point2DI32) -> (inside: bool)
        ensures
            inside == self.contains(point),
    {
        if self.lower_right.x == i32::MIN || self.lower_right.y == i32::MIN {
            false
        } else {
            rect_contains_point(*self, point)
        }
    }
}

impl Size2D {
    pub fn new(width: u32, height: u32) -> (size: Size2D)
        ensures
            size.width == width,
            size.height == height,
    {
        Size2D { width, height }
    }
}

} // verus!
