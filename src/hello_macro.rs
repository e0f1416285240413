//! A trait whose single function greets by the implementing type's name.
use vstd::prelude::*;
use vstd::string::StringExecFns;

verus! {

/// A type that can introduce itself.
pub trait HelloMacro {
    /// The greeting, naming the type.
    fn hello_macro() -> String;
}

/// A type that introduces itself by hand.
pub struct Crepes;

impl HelloMacro for Crepes {
    fn hello_macro() -> (r: String)
        ensures
            r@ == "Hello, Macro! My name is Crepes!"@,
    {
        String::from_str("Hello, Macro! My name is Crepes!")
    }
}

} // verus!
