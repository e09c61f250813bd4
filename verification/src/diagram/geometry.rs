//! Geometric primitives for diagram layout.
//!
//! Coordinates are IEEE-754 double-precision numbers. The library never
//! computes with them: it stores, copies and compares them. Each coordinate
//! is therefore held as its 64-bit pattern (`f64::to_bits`); the application
//! converts at its edge with `f64::to_bits` / `f64::from_bits`.
use vstd::prelude::*;

verus! {

/// A 2D point in diagram coordinates (origin top-left).
#[derive(Debug, Clone, Copy, PartialEq, Eq, Structural)]
pub struct Point {
    /// Bit pattern of the x-coordinate.
    pub x: u64,
    /// Bit pattern of the y-coordinate.
    pub y: u64,
}

impl Point {
    /// Create a new point from coordinate bit patterns.
    pub fn new(x: u64, y: u64) -> (p: Self)
        ensures
            p.x == x,
            p.y == y,
    {
        Point { x, y }
    }
}

/// A 2D size (width and height).
#[derive(Debug, Clone, Copy, PartialEq, Eq, Structural)]
pub struct Size {
    /// Bit pattern of the width.
    pub width: u64,
    /// Bit pattern of the height.
    pub height: u64,
}

impl Size {
    /// Create a new size from bit patterns.
    pub fn new(width: u64, height: u64) -> (s: Self)
        ensures
            s.width == width,
            s.height == height,
    {
        Size { width, height }
    }
}

/// A rectangle defined by origin and size.
#[derive(Debug, Clone, Copy, PartialEq, Eq, Structural)]
pub struct Rect {
    /// Top-left corner of the rectangle.
    pub origin: Point,
    /// Width and height.
    pub size: Size,
}

impl Rect {
    /// Create a new rectangle.
    pub fn new(x: u64, y: u64, width: u64, height: u64) -> (r: Self)
        ensures
            r.origin == (Point { x, y }),
            r.size == (Size { width, height }),
    {
        Rect { origin: Point::new(x, y), size: Size::new(width, height) }
    }

    /// The x-coordinate of the left edge.
    pub fn x(&self) -> (v: u64)
        ensures
            v == self.origin.x,
    {
        self.origin.x
    }

    /// The y-coordinate of the top edge.
    pub fn y(&self) -> (v: u64)
        ensures
            v == self.origin.y,
    {
        self.origin.y
    }

    /// The width.
    pub fn width(&self) -> (v: u64)
        ensures
            v == self.size.width,
    {
        self.size.width
    }

    /// The height.
    pub fn height(&self) -> (v: u64)
        ensures
            v == self.size.height,
    {
        self.size.height
    }
}

} // verus!
