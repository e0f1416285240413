//! Components that draw themselves, and screens that draw every component
//! they hold. Drawing yields the text to show, which the caller prints.
use vstd::prelude::*;
use vstd::string::StringExecFns;

verus! {

/// Something that can be drawn.
pub trait Draw {
    /// The text that drawing this component shows.
    fn draw(&self) -> String;
}

/// A screen of components of any types that can be drawn.
pub struct Screen {
    pub components: Vec<Box<dyn Draw>>,
}

impl Screen {
    /// Draws every component, in order.
    pub fn run(&self) -> (r: Vec<String>)
        ensures
            r@.len() == self.components@.len(),
    {
        let mut out: Vec<String> = Vec::new();
        let mut i: usize = 0;
        while i < self.components.len()
            invariant
                i <= self.components@.len(),
                out@.len() == i,
            decreases self.components@.len() - i,
        {
            out.push(self.components[i].draw());
            i = i + 1;
        }
        out
    }
}

/// A button.
pub struct Button {
    pub x: u32,
    pub y: u32,
    pub width: u32,
    pub height: u32,
    pub label: String,
}

impl Draw for Button {
    fn draw(&self) -> (r: String)
        ensures
            r@ == "Draw Button"@,
    {
        String::from_str("Draw Button")
    }
}

impl Button {
    /// The text that a click on the button shows.
    pub fn on_click(&self) -> (r: &'static str)
        ensures
            r@ == "Click Button"@,
    {
        "Click Button"
    }
}

impl Draw for String {
    fn draw(&self) -> (r: String)
        ensures
            r@ == "Draw String: \""@ + self@ + "\""@,
    {
        String::from_str("Draw String: \"").concat(self.as_str()).concat("\"")
    }
}

/// A screen whose components all have one type.
pub struct ScreenGeneric<T: Draw> {
    pub components: Vec<T>,
}

impl<T> ScreenGeneric<T> where T: Draw {
    /// Draws every component, in order.
    pub fn run(&self) -> (r: Vec<String>)
        ensures
            r@.len() == self.components@.len(),
            forall|i: int|
                0 <= i < r@.len() ==> call_ensures(T::draw, (&self.components@[i],), #[trigger] r@[i]),
    {
        let mut out: Vec<String> = Vec::new();
        let mut i: usize = 0;
        while i < self.components.len()
            invariant
                i <= self.components@.len(),
                out@.len() == i,
                forall|j: int|
                    0 <= j < i ==> call_ensures(T::draw, (&self.components@[j],), #[trigger] out@[j]),
            decreases self.components@.len() - i,
        {
            out.push(self.components[i].draw());
            i = i + 1;
        }
        out
    }
}

} // verus!
