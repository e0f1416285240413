//! A tuple struct with one public and one private field.
use vstd::prelude::*;

verus! {

/// A point whose second coordinate is private.
#[derive(Debug)]
pub struct Point(pub i32, i32);

impl Point {
    pub closed spec fn spec_x(&self) -> i32 {
        self.0
    }

    pub closed spec fn spec_y(&self) -> i32 {
        self.1
    }

    /// The point at zero on both axes.
    pub fn origin() -> (r: Self)
        ensures
            r.spec_x() == 0,
            r.spec_y() == 0,
    {
        Point(0, 0)
    }
}

/// The origin moved one step along the first axis.
pub fn play_with_point() -> (r: Point)
    ensures
        r.spec_x() == 1,
        r.spec_y() == 0,
{
    let mut p = Point::origin();
    p.0 = p.0 + 1;
    p
}

} // verus!
