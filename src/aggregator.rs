//! A trait for things that can be summarised, two kinds of media item that
//! implement it, and generic functions with trait bounds.
use vstd::prelude::*;
use vstd::std_specs::cmp::{PartialOrdIs, PartialOrdSpec};
use vstd::std_specs::ops::AddSpec;
use vstd::string::StringExecFns;

verus! {

/// The summary of an item whose author is `author`, when the item gives no
/// summary of its own.
pub open spec fn read_more_spec(author: Seq<char>) -> Seq<char> {
    "(Read more from "@ + author + "...)"@
}

/// The summary of an item whose author is `author`.
pub fn read_more(author: &str) -> (r: String)
    ensures
        r@ == read_more_spec(author@),
{
    String::from_str("(Read more from ").concat(author).concat("...)")
}

/// Something that can name its author and sum itself up in a line.
pub trait Summary {
    fn summarize_author(&self) -> String;

    fn summarize(&self) -> String {
        let author = self.summarize_author();
        read_more(author.as_str())
    }
}

/// A news article.
pub struct NewsArticle {
    pub headline: String,
    pub location: String,
    pub author: String,
    pub content: String,
}

impl Summary for NewsArticle {
    fn summarize_author(&self) -> (r: String)
        ensures
            r@ == self.author@,
    {
        self.author.clone()
    }
}

/// A short post by a user.
pub struct Tweet {
    pub username: String,
    pub content: String,
    pub reply: bool,
    pub retweet: bool,
}

impl Summary for Tweet {
    fn summarize_author(&self) -> (r: String)
        ensures
            r@ == "@"@ + self.username@,
    {
        String::from_str("@").concat(self.username.as_str())
    }

    fn summarize(&self) -> (r: String)
        ensures
            r@ == "\""@ + self.content@ + "\", by @"@ + self.username@,
    {
        String::from_str("\"").concat(self.content.as_str()).concat("\", by @").concat(
            self.username.as_str(),
        )
    }
}

/// The sum of copies of `t` and `u`.
pub fn some_function1<T: Clone + core::ops::Add<U, Output = i32>, U: Clone>(t: &T, u: &U) -> (r:
    i32)
    requires
        forall|a: T, b: U| #[trigger] a.add_req(b),
    ensures
        T::obeys_add_spec() ==> exists|a: T, b: U|
            cloned(*t, a) && cloned(*u, b) && r == #[trigger] a.add_spec(b),
{
    t.clone() + u.clone()
}

/// The sum of copies of `t` and `u`, with the bounds in a `where` clause.
pub fn some_function2<T, U>(t: &T, u: &U) -> (r: i32) where
    T: Clone + core::ops::Add<U, Output = i32>,
    U: Clone,

    requires
        forall|a: T, b: U| #[trigger] a.add_req(b),
    ensures
        T::obeys_add_spec() ==> exists|a: T, b: U|
            cloned(*t, a) && cloned(*u, b) && r == #[trigger] a.add_spec(b),
{
    t.clone() + u.clone()
}

/// A reply tweet, returned as some type that can be summarised.
pub fn returns_summarizable() -> (r: Tweet)
    ensures
        r.username@ == "my_username2"@,
        r.content@ == "Demo content from `returns_summarizable`"@,
        r.reply,
        !r.retweet,
{
    Tweet {
        username: String::from_str("my_username2"),
        content: String::from_str("Demo content from `returns_summarizable`"),
        reply: true,
        retweet: false,
    }
}

/// Two values of one type.
pub struct Pair<T> {
    x: T,
    y: T,
}

impl<T> Pair<T> {
    pub closed spec fn spec_x(&self) -> T {
        self.x
    }

    pub closed spec fn spec_y(&self) -> T {
        self.y
    }

    /// A pair of `x` and `y`.
    pub fn new(x: T, y: T) -> (r: Self)
        ensures
            r.spec_x() == x,
            r.spec_y() == y,
    {
        Self { x, y }
    }
}

impl<T: PartialOrd> Pair<T> {
    /// The larger member, and whether it is `x`: `x` when it is at least
    /// `y`, else `y`.
    pub fn largest_member(&self) -> (r: (bool, &T))
        ensures
            T::obeys_partial_cmp_spec() ==> r.0 == self.spec_x().is_ge(&self.spec_y()),
            r.0 ==> *r.1 == self.spec_x(),
            !r.0 ==> *r.1 == self.spec_y(),
    {
        if self.x >= self.y {
            (true, &self.x)
        } else {
            (false, &self.y)
        }
    }
}

} // verus!
