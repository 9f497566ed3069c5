//! Geometry and color value types, and the conversions between the
//! origin/size rectangle form and the platform's left/top/right/bottom form.
//!
//! Coordinates are held as plain integers (device-independent pixels);
//! what the platform stores in floating point is modelled by these exact
//! values, so the conversions can be stated and proved precisely.

use vstd::prelude::*;

verus! {

/// A position in the drawing plane.
#[derive(Clone, Copy, PartialEq, Eq, Structural, Debug)]
pub struct Point {
    pub x: i32,
    pub y: i32,
}

/// An extent in the drawing plane.
#[derive(Clone, Copy, PartialEq, Eq, Structural, Debug)]
pub struct Size {
    pub width: i32,
    pub height: i32,
}

/// A displacement in the drawing plane.
#[derive(Clone, Copy, PartialEq, Eq, Structural, Debug)]
pub struct Vector {
    pub x: i32,
    pub y: i32,
}

/// A rectangle given by its origin corner and its size.
#[derive(Clone, Copy, PartialEq, Eq, Structural, Debug)]
pub struct Rect {
    pub origin: Point,
    pub size: Size,
}

/// The platform's rectangle form: the two corners spelled out.
#[derive(Clone, Copy, PartialEq, Eq, Structural, Debug)]
pub struct RectCorners {
    pub left: i32,
    pub top: i32,
    pub right: i32,
    pub bottom: i32,
}

/// A circle: center and radius.
#[derive(Clone, Copy, PartialEq, Eq, Structural, Debug)]
pub struct Circle {
    pub center: Point,
    pub radius: i32,
}

/// An axis-aligned ellipse: center and the two half-axes.
#[derive(Clone, Copy, PartialEq, Eq, Structural, Debug)]
pub struct Ellipse {
    pub center: Point,
    pub radius: Vector,
}

/// A surface extent in whole physical pixels.
#[derive(Clone, Copy, PartialEq, Eq, Structural, Debug)]
pub struct PhysicalSize {
    pub width: u32,
    pub height: u32,
}

/// A color with alpha; each channel runs from 0 (none) to 255 (full).
#[derive(Clone, Copy, PartialEq, Eq, Structural, Debug)]
pub struct Rgba {
    pub r: u8,
    pub g: u8,
    pub b: u8,
    pub a: u8,
}

impl Point {
    pub fn new(x: i32, y: i32) -> (p: Point)
        ensures
            p.x == x,
            p.y == y,
    {
        Point { x, y }
    }
}

impl Size {
    pub fn new(width: i32, height: i32) -> (s: Size)
        ensures
            s.width == width,
            s.height == height,
    {
        Size { width, height }
    }
}

impl Vector {
    pub fn new(x: i32, y: i32) -> (v: Vector)
        ensures
            v.x == x,
            v.y == y,
    {
        Vector { x, y }
    }
}

impl Circle {
    pub fn new(center: Point, radius: i32) -> (c: Circle)
        ensures
            c.center == center,
            c.radius == radius,
    {
        Circle { center, radius }
    }

    /// The ellipse with this circle's center and equal half-axes.
    pub fn to_ellipse(self) -> (e: Ellipse)
        ensures
            e.center == self.center,
            e.radius.x == self.radius,
            e.radius.y == self.radius,
    {
        Ellipse { center: self.center, radius: Vector { x: self.radius, y: self.radius } }
    }
}

impl Ellipse {
    pub fn new(center: Point, radius: Vector) -> (e: Ellipse)
        ensures
            e.center == center,
            e.radius == radius,
    {
        Ellipse { center, radius }
    }
}

impl PhysicalSize {
    pub fn new(width: u32, height: u32) -> (s: PhysicalSize)
        ensures
            s.width == width,
            s.height == height,
    {
        PhysicalSize { width, height }
    }
}

impl Rgba {
    pub fn new(r: u8, g: u8, b: u8, a: u8) -> (c: Rgba)
        ensures
            c.r == r,
            c.g == g,
            c.b == b,
            c.a == a,
    {
        Rgba { r, g, b, a }
    }
}

impl Rect {
    /// Both extents are nonnegative.
    pub open spec fn spec_size_nonneg(self) -> bool {
        self.size.width >= 0 && self.size.height >= 0
    }

    /// The far corner can be represented without wrapping.
    pub open spec fn spec_endpoint_fits(self) -> bool {
        &&& i32::MIN <= self.origin.x + self.size.width <= i32::MAX
        &&& i32::MIN <= self.origin.y + self.size.height <= i32::MAX
    }

    /// The corner form of this rectangle.
    pub open spec fn spec_corners(self) -> RectCorners {
        RectCorners {
            left: self.origin.x,
            top: self.origin.y,
            right: (self.origin.x + self.size.width) as i32,
            bottom: (self.origin.y + self.size.height) as i32,
        }
    }

    pub fn new(origin: Point, size: Size) -> (r: Rect)
        ensures
            r.origin == origin,
            r.size == size,
    {
        Rect { origin, size }
    }

    /// The corner opposite the origin.
    pub fn endpoint(&self) -> (p: Point)
        requires
            self.spec_endpoint_fits(),
        ensures
            p.x == self.origin.x + self.size.width,
            p.y == self.origin.y + self.size.height,
    {
        Point { x: self.origin.x + self.size.width, y: self.origin.y + self.size.height }
    }

    /// Converts to the platform's left/top/right/bottom form.
    pub fn to_corners(&self) -> (c: RectCorners)
        requires
            self.spec_endpoint_fits(),
        ensures
            c == self.spec_corners(),
    {
        RectCorners {
            left: self.origin.x,
            top: self.origin.y,
            right: self.origin.x + self.size.width,
            bottom: self.origin.y + self.size.height,
        }
    }
}

impl RectCorners {
    /// Both differences of the corner form can be represented without
    /// wrapping.
    pub open spec fn spec_extent_fits(self) -> bool {
        &&& i32::MIN <= self.right - self.left <= i32::MAX
        &&& i32::MIN <= self.bottom - self.top <= i32::MAX
    }

    /// The origin/size form of this rectangle.
    pub open spec fn spec_rect(self) -> Rect {
        Rect {
            origin: Point { x: self.left, y: self.top },
            size: Size {
                width: (self.right - self.left) as i32,
                height: (self.bottom - self.top) as i32,
            },
        }
    }

    /// Converts back to the origin/size form.
    pub fn to_rect(&self) -> (r: Rect)
        requires
            self.spec_extent_fits(),
        ensures
            r == self.spec_rect(),
    {
        Rect {
            origin: Point { x: self.left, y: self.top },
            size: Size { width: self.right - self.left, height: self.bottom - self.top },
        }
    }
}

/// Round-trip law: for every rectangle with nonnegative extents whose far
/// corner is representable, converting to the platform's corner form and back
/// yields the original origin and size.
pub proof fn lemma_rect_corners_round_trip(r: Rect)
    requires
        r.spec_size_nonneg(),
        r.spec_endpoint_fits(),
    ensures
        r.spec_corners().spec_rect() == r,
{
}

/// Round-trip law, the other way: converting a corner-form rectangle with
/// representable extents to origin/size form and back yields the same corners.
pub proof fn lemma_corners_rect_round_trip(c: RectCorners)
    requires
        c.spec_extent_fits(),
    ensures
        c.spec_rect().spec_corners() == c,
{
}

} // verus!
