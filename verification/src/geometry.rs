//! Plain geometry in generic units: points, sizes and rectangles.
//! Integral device pixels live here too; logical pixels are floats and stay
//! with the callers that do float arithmetic.

use vstd::prelude::*;

verus! {

/// A position in two dimensions.
#[derive(Clone, Copy, Debug, Default, PartialEq, Eq, Hash, Structural)]
pub struct Point<T> {
    /// The horizontal coordinate.
    pub x: T,
    /// The vertical coordinate.
    pub y: T,
}

/// A width and a height.
#[derive(Clone, Copy, Debug, Default, PartialEq, Eq, Hash, Structural)]
pub struct Size<T> {
    /// The horizontal extent.
    pub width: T,
    /// The vertical extent.
    pub height: T,
}

/// A rectangle given by its origin and its size.
#[derive(Clone, Copy, Debug, Default, PartialEq, Eq, Hash, Structural)]
pub struct Bounds<T> {
    /// The top-left corner.
    pub origin: Point<T>,
    /// The extent from the origin.
    pub size: Size<T>,
}

/// A whole number of physical device pixels.
#[derive(Clone, Copy, Debug, Default, PartialEq, Eq, Hash, PartialOrd, Ord, Structural)]
pub struct DevicePixels(pub i32);

/// Builds a point from its coordinates.
pub fn point<T>(x: T, y: T) -> (p: Point<T>)
    ensures
        p.x == x,
        p.y == y,
{
    Point { x, y }
}

/// Builds a size from its extents.
pub fn size<T>(width: T, height: T) -> (s: Size<T>)
    ensures
        s.width == width,
        s.height == height,
{
    Size { width, height }
}

/// The empty rectangle at the origin, in device pixels.
pub fn zero_device_bounds() -> (b: Bounds<DevicePixels>)
    ensures
        b.origin.x.0 == 0 && b.origin.y.0 == 0,
        b.size.width.0 == 0 && b.size.height.0 == 0,
{
    Bounds {
        origin: Point { x: DevicePixels(0), y: DevicePixels(0) },
        size: Size { width: DevicePixels(0), height: DevicePixels(0) },
    }
}

} // verus!
