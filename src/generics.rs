//! Generic functions and types: the largest element of a slice, points with
//! one or two coordinate types, and the longer of two strings.
use vstd::prelude::*;
use vstd::laws_cmp::obeys_partial_cmp_spec_properties;
use vstd::std_specs::cmp::{PartialOrdIs, PartialOrdSpec};
use vstd::string::StringSliceAdditionalSpecFns;

verus! {

/// Whether `m` is an element of `s` that no element of `s` exceeds.
pub open spec fn is_max_of(s: Seq<i32>, m: i32) -> bool {
    &&& exists|i: int| 0 <= i < s.len() && s[i] == m
    &&& forall|i: int| 0 <= i < s.len() ==> s[i] <= m
}

/// The largest element of `array`, or `None` when it is empty.
pub fn find_max(array: &[i32]) -> (r: Option<i32>)
    ensures
        r is None <==> array@.len() == 0,
        r matches Some(m) ==> is_max_of(array@, m),
{
    if array.len() > 0 {
        let mut max: i32 = array[0];
        let mut i: usize = 0;
        while i < array.len()
            invariant
                0 < array@.len(),
                i <= array@.len(),
                exists|k: int| 0 <= k < array@.len() && array@[k] == max,
                forall|k: int| 0 <= k < i ==> array@[k] <= max,
            decreases array@.len() - i,
        {
            let elt = array[i];
            if elt > max {
                max = elt;
            }
            i = i + 1;
        }
        Some(max)
    } else {
        None
    }
}

/// The largest element of a non-empty slice of integers.
pub fn largest_i32(array: &[i32]) -> (r: &i32)
    requires
        array@.len() > 0,
    ensures
        is_max_of(array@, *r),
{
    let mut largest: &i32 = &array[0];
    let mut i: usize = 0;
    while i < array.len()
        invariant
            0 < array@.len(),
            i <= array@.len(),
            exists|k: int| 0 <= k < array@.len() && array@[k] == *largest,
            forall|k: int| 0 <= k < i ==> array@[k] <= *largest,
        decreases array@.len() - i,
    {
        let elt = &array[i];
        if *elt > *largest {
            largest = elt;
        }
        i = i + 1;
    }
    largest
}

/// The largest element of a non-empty slice of characters.
pub fn largest_char(array: &[char]) -> (r: &char)
    requires
        array@.len() > 0,
    ensures
        exists|k: int| 0 <= k < array@.len() && array@[k] == *r,
        forall|k: int| 0 <= k < array@.len() ==> array@[k] <= *r,
{
    let mut largest: &char = &array[0];
    let mut i: usize = 0;
    while i < array.len()
        invariant
            0 < array@.len(),
            i <= array@.len(),
            exists|k: int| 0 <= k < array@.len() && array@[k] == *largest,
            forall|k: int| 0 <= k < i ==> array@[k] <= *largest,
        decreases array@.len() - i,
    {
        let elt = &array[i];
        if *elt > *largest {
            largest = elt;
        }
        i = i + 1;
    }
    largest
}

/// The largest element of a non-empty slice by the type's own comparison:
/// always one of its elements and, where the comparison follows its
/// specification and is consistent, one that no element is greater than.
pub fn largest<T: PartialOrd>(array: &[T]) -> (r: &T)
    requires
        array@.len() > 0,
    ensures
        exists|k: int| 0 <= k < array@.len() && array@[k] == *r,
        T::obeys_partial_cmp_spec() && obeys_partial_cmp_spec_properties::<T>() ==> forall|k: int|
            0 <= k < array@.len() ==> !(#[trigger] array@[k]).is_gt(r),
{
    let mut largest: &T = &array[0];
    let mut i: usize = 0;
    while i < array.len()
        invariant
            0 < array@.len(),
            i <= array@.len(),
            exists|k: int| 0 <= k < array@.len() && array@[k] == *largest,
            T::obeys_partial_cmp_spec() && obeys_partial_cmp_spec_properties::<T>() ==> forall|k: int|
                0 <= k < i ==> !(#[trigger] array@[k]).is_gt(largest),
        decreases array@.len() - i,
    {
        let elt = &array[i];
        if *elt > *largest {
            proof {
                if T::obeys_partial_cmp_spec() && obeys_partial_cmp_spec_properties::<T>() {
                    reveal(obeys_partial_cmp_spec_properties);
                    assert forall|k: int| 0 <= k < i + 1 implies !(#[trigger] array@[k]).is_gt(
                        elt,
                    ) by {
                        if array@[k].is_gt(elt) && k < i {
                            assert(array@[k].is_gt(largest));
                        }
                    }
                }
            }
            largest = elt;
        }
        i = i + 1;
    }
    largest
}

/// A point whose coordinates share one type.
#[derive(Debug)]
pub struct Point<T> {
    pub x: T,
    pub y: T,
}

impl<T> Point<T> {
    /// The first coordinate.
    pub fn x(&self) -> (r: &T)
        ensures
            *r == self.x,
    {
        &self.x
    }
}

/// A point whose coordinates may have different types.
#[derive(Debug)]
pub struct MixedPoint<T, U> {
    pub x: T,
    pub y: U,
}

/// A point whose coordinates may have different types.
#[derive(Debug)]
pub struct PointMixed<X1, Y1> {
    pub x: X1,
    pub y: Y1,
}

impl<X1, Y1> PointMixed<X1, Y1> {
    /// A point with the first coordinate of `self` and the second of `other`.
    pub fn mixup<X2, Y2>(self, other: PointMixed<X2, Y2>) -> (r: PointMixed<X1, Y2>)
        ensures
            r.x == self.x,
            r.y == other.y,
    {
        PointMixed { x: self.x, y: other.y }
    }
}

/// The longer of two strings by their length in bytes; the first on a tie.
pub fn longest_string<'a>(string1: &'a str, string2: &'a str) -> (r: &'a str)
    ensures
        r == (if string1.len() >= string2.len() {
            string1
        } else {
            string2
        }),
{
    if string1.len() >= string2.len() {
        string1
    } else {
        string2
    }
}

/// A part of some text that outlives the excerpt.
#[derive(Debug)]
pub struct ImportantExcerpt<'a> {
    pub part: &'a str,
}

impl<'a> ImportantExcerpt<'a> {
    /// The excerpt's level, which is always three.
    pub fn level(&self) -> (r: i32)
        ensures
            r == 3,
    {
        3
    }
}

} // verus!
