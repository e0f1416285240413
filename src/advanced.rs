//! Traits with associated types, operator overloading, methods of the same
//! name on several traits, the newtype pattern, and functions that take or
//! return closures.
use vstd::prelude::*;
use vstd::string::StringExecFns;

verus! {

/// Splits `values` at `mid` into two parts that can be changed separately;
/// what the parts hold at the end is what `values` holds.
pub fn my_split_at_mut(values: &mut [i32], mid: usize) -> (r: (&mut [i32], &mut [i32]))
    requires
        mid <= old(values)@.len(),
    ensures
        r.0@ == old(values)@.subrange(0, mid as int),
        r.1@ == old(values)@.subrange(mid as int, old(values)@.len() as int),
        final(values)@ == final(r.0)@ + final(r.1)@,
{
    values.split_at_mut(mid)
}

/// The characters of `s` repeated `n` times.
pub open spec fn repeated(s: Seq<char>, n: nat) -> Seq<char>
    decreases n,
{
    if n == 0 {
        Seq::empty()
    } else {
        repeated(s, (n - 1) as nat) + s
    }
}

fn repeat(s: &str, n: usize) -> (r: String)
    ensures
        r@ == repeated(s@, n as nat),
{
    let mut out = String::new();
    let mut i: usize = 0;
    while i < n
        invariant
            i <= n,
            out@ == repeated(s@, i as nat),
        decreases n - i,
    {
        out.append(s);
        i = i + 1;
    }
    out
}

/// The five lines that frame `output` in a box of stars, one space inside
/// the frame; the frame's width follows the byte length of `output`.
pub fn outline_lines(output: &str) -> (r: Vec<String>)
    requires
        output.len() + 4 <= usize::MAX,
    ensures
        r@.len() == 5,
        r@[0]@ == repeated("*"@, (output.len() + 4) as nat),
        r@[1]@ == "*"@ + repeated(" "@, (output.len() + 2) as nat) + "*"@,
        r@[2]@ == "* "@ + output@ + " *"@,
        r@[3]@ == r@[1]@,
        r@[4]@ == r@[0]@,
{
    let len = output.len();
    let border = repeat("*", len + 4);
    let blank = String::from_str("*").concat(repeat(" ", len + 2).as_str()).concat("*");
    let middle = String::from_str("* ").concat(output).concat(" *");
    let mut r: Vec<String> = Vec::new();
    r.push(border.clone());
    r.push(blank.clone());
    r.push(middle);
    r.push(blank);
    r.push(border);
    r
}

/// A source of items handed out one at a time.
pub trait SimpleIterator {
    type Item;

    fn next(&mut self) -> Option<Self::Item>;
}

/// Counts from one to five, then stops.
pub struct Counter {
    pub count: u32,
}

impl Counter {
    /// A counter that has not counted yet.
    pub fn new() -> (r: Counter)
        ensures
            r.count == 0,
    {
        Counter { count: 0 }
    }
}

impl SimpleIterator for Counter {
    type Item = u32;

    fn next(&mut self) -> (r: Option<u32>)
        ensures
            old(self).count < 5 ==> final(self).count == old(self).count + 1 && r == Some(
                final(self).count,
            ),
            old(self).count >= 5 ==> final(self).count == old(self).count && r is None,
    {
        if self.count < 5 {
            self.count = self.count + 1;
            Some(self.count)
        } else {
            None
        }
    }
}

/// A point on the integer grid.
#[derive(Debug, PartialEq, Eq, Structural)]
pub struct Point {
    pub x: i32,
    pub y: i32,
}

impl Point {
    /// The sum of two points, coordinate by coordinate.
    pub fn plus(self, other: Point) -> (r: Point)
        requires
            i32::MIN <= self.x + other.x <= i32::MAX,
            i32::MIN <= self.y + other.y <= i32::MAX,
        ensures
            r.x == self.x + other.x,
            r.y == self.y + other.y,
    {
        Point { x: self.x + other.x, y: self.y + other.y }
    }
}

/// A length in millimetres.
#[derive(Clone, Copy, Debug, PartialEq, Eq, Structural)]
pub struct Millimeters(pub u32);

/// A length in metres.
#[derive(Clone, Copy, Debug, PartialEq, Eq, Structural)]
pub struct Meters(pub u32);

impl Millimeters {
    /// This length with a length in metres added, in millimetres.
    pub fn plus_meters(self, rhs: Meters) -> (r: Millimeters)
        requires
            self.0 + rhs.0 * 1000 <= u32::MAX,
        ensures
            r.0 == self.0 + rhs.0 * 1000,
    {
        Millimeters(self.0 + rhs.0 * 1000)
    }
}

/// Something that can fly a plane.
pub trait Pilot {
    fn fly(&self) -> &'static str;
}

/// Something that can fly by magic.
pub trait Wizard {
    fn fly(&self) -> &'static str;
}

/// A person, who flies in three ways.
pub struct Human;

impl Pilot for Human {
    fn fly(&self) -> (r: &'static str)
        ensures
            r@ == "This is your captain speaking."@,
    {
        "This is your captain speaking."
    }
}

impl Wizard for Human {
    fn fly(&self) -> (r: &'static str)
        ensures
            r@ == "Up!"@,
    {
        "Up!"
    }
}

impl Human {
    /// What the person does when asked to fly.
    pub fn fly(&self) -> (r: &'static str)
        ensures
            r@ == "*waving arms furiously*"@,
    {
        "*waving arms furiously*"
    }
}

/// An animal that names its young.
pub trait Animal {
    fn baby_name() -> String;
}

/// A dog.
pub struct Dog;

impl Dog {
    /// The name this particular dog gives a puppy.
    pub fn baby_name() -> (r: String)
        ensures
            r@ == "Džeki"@,
    {
        String::from_str("Džeki")
    }
}

impl Animal for Dog {
    fn baby_name() -> (r: String)
        ensures
            r@ == "puppy"@,
    {
        String::from_str("puppy")
    }
}

/// The items joined with a comma and a space between each two.
pub open spec fn joined(items: Seq<Seq<char>>) -> Seq<char>
    decreases items.len(),
{
    if items.len() == 0 {
        Seq::empty()
    } else if items.len() == 1 {
        items[0]
    } else {
        joined(items.drop_last()) + ", "@ + items.last()
    }
}

/// A list of strings shown in brackets, separated by commas.
pub struct Wrapper(pub Vec<String>);

impl Wrapper {
    /// The list in brackets, its items separated by a comma and a space.
    pub fn to_display_string(&self) -> (r: String)
        ensures
            r@ == "["@ + joined(self.0@.map_values(|s: String| s@)) + "]"@,
    {
        let items = &self.0;
        let ghost views = items@.map_values(|s: String| s@);
        let mut out = String::from_str("[");
        let mut i: usize = 0;
        while i < items.len()
            invariant
                i <= items@.len(),
                views == items@.map_values(|s: String| s@),
                out@ == "["@ + joined(views.subrange(0, i as int)),
            decreases items@.len() - i,
        {
            if i > 0 {
                out.append(", ");
            }
            out.append(items[i].as_str());
            proof {
                let next = views.subrange(0, i + 1);
                assert(next.drop_last() =~= views.subrange(0, i as int));
                assert(next.last() == items@[i as int]@);
                if i == 0 {
                    assert(joined(next) == next[0]);
                    assert(joined(views.subrange(0, 0)) == Seq::<char>::empty());
                }
            }
            i = i + 1;
        }
        assert(views.subrange(0, items@.len() as int) =~= views);
        out.append("]");
        out
    }
}

/// Takes any value and drops it.
pub fn generic1<T>(t: T) {
}

/// Takes any sized value and drops it.
pub fn generic2<T: Sized>(t: T) {
}

/// Takes a reference to a value of any size.
pub fn generic3<T: ?Sized>(t: &T) {
}

/// One more than `x`.
pub fn add_one(x: i32) -> (r: i32)
    requires
        x < i32::MAX,
    ensures
        r == x + 1,
{
    x + 1
}

/// The sum of two calls of `f` on `arg`.
pub fn do_twice<F: Fn(i32) -> i32>(f: F, arg: i32) -> (r: i32)
    requires
        call_requires(f, (arg,)),
        forall|a: i32, b: i32|
            call_ensures(f, (arg,), a) && call_ensures(f, (arg,), b) ==> i32::MIN <= a + b
                <= i32::MAX,
    ensures
        exists|a: i32, b: i32|
            call_ensures(f, (arg,), a) && call_ensures(f, (arg,), b) && r == a + b,
{
    let a = f(arg);
    let b = f(arg);
    a + b
}

/// A status that carries a number, or a request to stop.
#[derive(Clone, Copy, Debug, PartialEq, Eq, Structural)]
pub enum Status {
    Value(u32),
    Stop,
}

/// The statuses `Value(0)` to `Value(n - 1)`, in order.
pub fn statuses(n: u32) -> (r: Vec<Status>)
    ensures
        r@.len() == n,
        forall|i: int| 0 <= i < n ==> #[trigger] r@[i] == Status::Value(i as u32),
{
    let mut r: Vec<Status> = Vec::new();
    let mut i: u32 = 0;
    while i < n
        invariant
            i <= n,
            r@.len() == i,
            forall|j: int| 0 <= j < i ==> #[trigger] r@[j] == Status::Value(j as u32),
        decreases n - i,
    {
        r.push(Status::Value(i));
        i = i + 1;
    }
    r
}

/// The statuses `Value(0)` to `Value(19)`.
pub fn initialize_enums() -> (r: Vec<Status>)
    ensures
        r@.len() == 20,
        forall|i: int| 0 <= i < 20 ==> #[trigger] r@[i] == Status::Value(i as u32),
{
    statuses(20)
}

/// A closure that adds one to its argument.
pub fn returns_closure1() -> (r: impl Fn(i32) -> i32)
    ensures
        forall|x: i32| x < i32::MAX ==> call_requires(r, (x,)),
        forall|x: i32, y: i32| call_ensures(r, (x,), y) ==> y == x + 1,
{
    |x: i32| -> (y: i32)
        requires
            x < i32::MAX,
        ensures
            y == x + 1,
        { x + 1 }
}

/// An event handed to a callback.
pub struct Event;

/// Accepts a callback for events.
pub fn register2<F>(cb: F) where F: Fn(Event) {
}

} // verus!
