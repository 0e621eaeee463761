use vstd::prelude::*;

verus! {

/// A point in screen coordinates.
#[derive(Debug, Clone, Copy, PartialEq, Eq, Structural)]
pub struct Point {
    pub x: i32,
    pub y: i32,
}

/// An axis-aligned rectangle given by its edges in screen coordinates.
#[derive(Debug, Clone, Copy, PartialEq, Eq, Structural)]
pub struct Rect {
    pub left: i32,
    pub top: i32,
    pub right: i32,
    pub bottom: i32,
}

/// Rust's `/` on integers rounds toward zero.
pub open spec fn div_toward_zero(a: int, b: int) -> int
    recommends
        b > 0,
{
    if a >= 0 {
        a / b
    } else {
        -((-a) / b)
    }
}

impl Rect {
    /// The width, `right - left`.
    pub open spec fn spec_width(self) -> int {
        self.right - self.left
    }

    /// The height, `bottom - top`.
    pub open spec fn spec_height(self) -> int {
        self.bottom - self.top
    }

    /// Width and height are representable as `i32`.
    pub open spec fn has_i32_size(self) -> bool {
        &&& i32::MIN <= self.spec_width() <= i32::MAX
        &&& i32::MIN <= self.spec_height() <= i32::MAX
    }

    /// The center point: the top-left corner moved by half the size,
    /// with the halves rounded toward zero.
    pub open spec fn spec_center(self) -> Point {
        Point {
            x: (self.left + div_toward_zero(self.spec_width(), 2)) as i32,
            y: (self.top + div_toward_zero(self.spec_height(), 2)) as i32,
        }
    }

    /// The x-coordinate of the left edge.
    pub fn x(&self) -> (r: i32)
        ensures
            r == self.left,
    {
        self.left
    }

    /// The y-coordinate of the top edge.
    pub fn y(&self) -> (r: i32)
        ensures
            r == self.top,
    {
        self.top
    }

    /// The width of the rectangle.
    pub fn width(&self) -> (r: i32)
        requires
            i32::MIN <= self.spec_width() <= i32::MAX,
        ensures
            r == self.spec_width(),
    {
        self.right - self.left
    }

    /// The height of the rectangle.
    pub fn height(&self) -> (r: i32)
        requires
            i32::MIN <= self.spec_height() <= i32::MAX,
        ensures
            r == self.spec_height(),
    {
        self.bottom - self.top
    }

    /// The center point of the rectangle.
    pub fn center_point(&self) -> (p: Point)
        requires
            self.has_i32_size(),
        ensures
            p == self.spec_center(),
    {
        Point { x: self.left + self.width() / 2, y: self.top + self.height() / 2 }
    }
}

} // verus!
