//! The pixel geometry that GPU images report.
use vstd::prelude::*;

verus! {

/// A length in physical device pixels.
#[derive(Clone, Copy, Debug, Default, Eq, Hash, Ord, PartialEq, PartialOrd, Structural)]
pub struct DevicePixels(pub i32);

/// A point in a two-dimensional space.
#[derive(Clone, Copy, Debug, Default, Eq, Hash, PartialEq)]
pub struct Point<T> {
    pub x: T,
    pub y: T,
}

/// A width and a height.
#[derive(Clone, Copy, Debug, Default, Eq, Hash, PartialEq)]
pub struct Size<T> {
    pub width: T,
    pub height: T,
}

/// An axis-aligned rectangle given by its origin and its size.
#[derive(Clone, Copy, Debug, Default, Eq, Hash, PartialEq)]
pub struct Bounds<T> {
    pub origin: Point<T>,
    pub size: Size<T>,
}

impl<T> Point<T> {
    /// Creates a point from its coordinates.
    pub fn new(x: T, y: T) -> (point: Self)
        ensures
            point == (Point { x, y }),
    {
        Point { x, y }
    }
}

impl<T> Size<T> {
    /// Creates a size from its width and height.
    pub fn new(width: T, height: T) -> (size: Self)
        ensures
            size == (Size { width, height }),
    {
        Size { width, height }
    }
}

impl<T> Bounds<T> {
    /// Creates a rectangle from its origin and size.
    pub fn new(origin: Point<T>, size: Size<T>) -> (bounds: Self)
        ensures
            bounds == (Bounds { origin, size }),
    {
        Bounds { origin, size }
    }
}

} // verus!
