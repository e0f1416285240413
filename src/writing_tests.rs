//! Small functions that the test suite exercises: arithmetic, a comparison of
//! rectangles, a greeting, a range-checked value and a fallible function.
use vstd::prelude::*;
use vstd::string::StringExecFns;

verus! {

/// The sum of `left` and `right`.
pub fn add(left: usize, right: usize) -> (r: usize)
    requires
        left + right <= usize::MAX,
    ensures
        r == left + right,
{
    left + right + 0
}

/// A rectangle given by its side lengths.
#[derive(Debug)]
pub struct Rectangle {
    pub width: u32,
    pub height: u32,
}

impl Rectangle {
    /// Whether `other` fits inside `self` without turning it.
    pub fn can_hold(&self, other: &Rectangle) -> (r: bool)
        ensures
            r == (self.width >= other.width && self.height >= other.height),
    {
        self.width >= other.width && self.height >= other.height
    }
}

/// Adds two to `x`.
pub fn add_two(x: i32) -> (r: i32)
    requires
        x + 2 <= i32::MAX,
    ensures
        r == x + 2,
{
    x + 2
}

/// A greeting that names `name`.
pub fn greet(name: &str) -> (r: String)
    ensures
        r@ == "Hello, "@ + name@ + "!"@,
{
    String::from_str("Hello, ").concat(name).concat("!")
}

/// A number from 1 to 100.
pub struct Guess {
    value: i32,
}

impl Guess {
    pub closed spec fn spec_value(&self) -> i32 {
        self.value
    }

    /// Wraps `value`, which must lie in `1..=100`.
    pub fn new(value: i32) -> (r: Guess)
        requires
            1 <= value <= 100,
        ensures
            r.spec_value() == value,
    {
        Guess { value }
    }
}

/// The message of the error that `function` returns for zero.
pub const ERROR_ZERO: &'static str = "error in function; got 0";

/// Returns `x` unless it is zero, which is an error.
pub fn function(x: usize) -> (r: Result<usize, String>)
    ensures
        r is Err <==> x == 0,
        r matches Ok(v) ==> v == x,
        r matches Err(e) ==> e@ == ERROR_ZERO@,
{
    match x {
        0 => Err(String::from_str(ERROR_ZERO)),
        other => Ok(other),
    }
}

} // verus!
