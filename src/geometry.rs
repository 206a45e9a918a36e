use vstd::prelude::*;

verus! {

/// A point of the integer grid. The y axis grows upward, so "down" is a
/// smaller y.
#[derive(Clone, Copy, Debug, PartialEq, Eq, Structural)]
pub struct Point {
    pub x: i32,
    pub y: i32,
}

/// A rectangle given by two corners. Nothing ties the corners to their names:
/// any two points make a rectangle, and its extent does not depend on which
/// corner stands where.
#[derive(Clone, Copy, Debug, PartialEq, Eq, Structural)]
pub struct Rectangle {
    pub top_left: Point,
    pub bottom_right: Point,
}

/// The distance between two values on a line.
pub open spec fn distance(a: int, b: int) -> nat {
    if a <= b {
        (b - a) as nat
    } else {
        (a - b) as nat
    }
}

impl Rectangle {
    /// Horizontal extent: the distance between the corners' x coordinates.
    pub open spec fn width(self) -> nat {
        distance(self.top_left.x as int, self.bottom_right.x as int)
    }

    /// Vertical extent: the distance between the corners' y coordinates.
    pub open spec fn height(self) -> nat {
        distance(self.top_left.y as int, self.bottom_right.y as int)
    }

    /// The area covered by the rectangle.
    pub open spec fn area(self) -> nat {
        self.width() * self.height()
    }

    /// The same rectangle with its two corners exchanged.
    pub open spec fn swapped(self) -> Rectangle {
        Rectangle { top_left: self.bottom_right, bottom_right: self.top_left }
    }
}

/// The rectangle whose top-left corner is `p` and which reaches `w` to the
/// right and `w` down from it.
pub open spec fn square_of(p: Point, w: i32) -> Rectangle {
    Rectangle {
        top_left: p,
        bottom_right: Point { x: (p.x + w) as i32, y: (p.y - w) as i32 },
    }
}

/// Whether the square of side `w` spanned from `p` has corners that fit the
/// coordinate type.
pub open spec fn square_fits(p: Point, w: i32) -> bool {
    &&& p.x + w <= i32::MAX
    &&& p.y - w >= i32::MIN
}

/// The distance between two coordinates, computed without overflow.
fn coordinate_distance(a: i32, b: i32) -> (d: u64)
    ensures
        d == distance(a as int, b as int),
        d <= u32::MAX,
{
    let diff: i64 = b as i64 - a as i64;
    if diff < 0 {
        (-diff) as u64
    } else {
        diff as u64
    }
}

/// The area of `rectangle`: the product of the distances between its corners
/// along each axis, whichever corner is which.
pub fn rect_area(rectangle: Rectangle) -> (area: u64)
    ensures
        area == rectangle.area(),
{
    let Rectangle { top_left, bottom_right } = rectangle;
    let width = coordinate_distance(top_left.x, bottom_right.x);
    let height = coordinate_distance(top_left.y, bottom_right.y);
    assert(width * height <= u64::MAX) by (nonlinear_arith)
        requires
            width <= u32::MAX,
            height <= u32::MAX,
    ;
    width * height
}

/// The square of side `width` whose top-left corner is `top_left_point`: the
/// opposite corner lies `width` to the right and `width` down. A negative side
/// is not a square, and both corners must fit the coordinate type.
pub fn square(top_left_point: Point, width: i32) -> (r: Rectangle)
    requires
        width >= 0,
        square_fits(top_left_point, width),
    ensures
        r == square_of(top_left_point, width),
{
    let bottom_right_x = top_left_point.x + width;
    let bottom_right_y = top_left_point.y - width;
    Rectangle {
        top_left: top_left_point,
        bottom_right: Point { x: bottom_right_x, y: bottom_right_y },
    }
}

/// The area of a rectangle is the product of the distances between its
/// corners along each axis, and stays the same when the corners are
/// exchanged.
pub proof fn lemma_area_ignores_corner_order(r: Rectangle)
    ensures
        r.area() == distance(r.top_left.x as int, r.bottom_right.x as int) * distance(
            r.top_left.y as int,
            r.bottom_right.y as int,
        ),
        r.swapped().area() == r.area(),
{
}

/// A rectangle whose two corners are the same point has area zero.
pub proof fn lemma_area_of_coincident_corners(p: Point)
    ensures
        (Rectangle { top_left: p, bottom_right: p }).area() == 0,
{
    let r = Rectangle { top_left: p, bottom_right: p };
    assert(r.width() == 0);
    assert(0 * r.height() == 0);
}

/// The square of side `w` has area `w * w`, for every corner from which it
/// fits, a side of zero included.
pub proof fn lemma_square_area(p: Point, w: i32)
    requires
        w >= 0,
        square_fits(p, w),
    ensures
        square_of(p, w).area() == w * w,
{
    let r = square_of(p, w);
    assert(r.width() == w);
    assert(r.height() == w);
}

} // verus!
