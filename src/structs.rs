//! Plain structs, tuple structs and methods on a rectangle.
use vstd::prelude::*;

verus! {

/// A point on the integer grid.
pub struct Point {
    pub x: i32,
    pub y: i32,
}

/// A colour as three channels.
#[derive(Debug)]
pub struct Color(pub i32, pub i32, pub i32);

/// A rectangle given by its side lengths.
#[derive(Debug)]
pub struct Rectangle {
    pub width: u32,
    pub height: u32,
}

impl Rectangle {
    /// The area of the rectangle.
    pub fn area(&self) -> (r: u32)
        requires
            self.width * self.height <= u32::MAX,
        ensures
            r == self.width * self.height,
    {
        self.width * (*self).height
    }

    /// The width of the rectangle.
    pub fn width(&self) -> (r: u32)
        ensures
            r == self.width,
    {
        self.width
    }

    /// Sets the width, leaving the height as it was.
    pub fn set_width(&mut self, width: u32)
        ensures
            final(self).width == width,
            final(self).height == old(self).height,
    {
        self.width = width;
    }

    /// Whether the width is above zero.
    pub fn is_width_positive(&self) -> (r: bool)
        ensures
            r == (self.width > 0),
    {
        self.width > 0
    }

    /// Whether `other` fits inside `self` without turning it.
    pub fn can_hold(&self, other: &Rectangle) -> (r: bool)
        ensures
            r == (self.width >= other.width && self.height >= other.height),
    {
        self.width >= other.width && self.height >= other.height
    }

    /// A square with sides of length `size`.
    pub fn square(size: u32) -> (r: Self)
        ensures
            r.width == size,
            r.height == size,
    {
        Self { width: size, height: size }
    }
}

/// The area of the rectangle that `r` borrows.
pub fn area(r: &Rectangle) -> (a: u32)
    requires
        r.width * r.height <= u32::MAX,
    ensures
        a == r.width * r.height,
{
    r.width * (*r).height
}

/// The area of the rectangle `r`, which this call takes over.
pub fn area2(r: Rectangle) -> (a: u32)
    requires
        r.width * r.height <= u32::MAX,
    ensures
        a == r.width * r.height,
{
    r.width * r.height
}

} // verus!
