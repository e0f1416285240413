//! A quota tracker that reports through a messenger its user provides, a
//! box of one value, and a cons list whose tails are shared by reference
//! counting.
use vstd::prelude::*;
use std::rc::Rc;

verus! {

/// The message when the quota is used up or exceeded.
pub const OVER_QUOTA: &'static str = "Error: You are over your quota!";

/// The message when at least 90% of the quota is used.
pub const URGENT_WARNING: &'static str = "Urgent warning: You've used up over 90% of your quota!";

/// The message when at least 75% of the quota is used.
pub const WARNING: &'static str = "Warning: You've used up over 75% of your quota!";

/// Something that delivers a message to the user.
pub trait Messenger {
    fn send(&self, msg: &str);
}

/// The message owed when `value` out of `max` is used: none below 75%, a
/// warning from 75%, an urgent warning from 90%, an error from 100%. With a
/// quota of zero any use is over it, and no use is not reported.
pub open spec fn quota_message_spec(value: nat, max: nat) -> Option<&'static str> {
    if max == 0 {
        if value > 0 {
            Some(OVER_QUOTA)
        } else {
            None
        }
    } else if value >= max {
        Some(OVER_QUOTA)
    } else if 10 * value >= 9 * max {
        Some(URGENT_WARNING)
    } else if 4 * value >= 3 * max {
        Some(WARNING)
    } else {
        None
    }
}

/// The message owed when `value` out of `max` is used.
pub fn quota_message(value: usize, max: usize) -> (r: Option<&'static str>)
    ensures
        r == quota_message_spec(value as nat, max as nat),
{
    let v = value as u128;
    let m = max as u128;
    if max == 0 {
        if value > 0 {
            Some(OVER_QUOTA)
        } else {
            None
        }
    } else if value >= max {
        Some(OVER_QUOTA)
    } else if 10 * v >= 9 * m {
        Some(URGENT_WARNING)
    } else if 4 * v >= 3 * m {
        Some(WARNING)
    } else {
        None
    }
}

/// Tracks a value against a maximum and tells the messenger when the value
/// comes near or over it.
pub struct LimitTracker<'a, T> {
    messenger: &'a T,
    value: usize,
    max: usize,
}

impl<'a, T> LimitTracker<'a, T> where T: Messenger {
    pub closed spec fn spec_value(&self) -> usize {
        self.value
    }

    pub closed spec fn spec_max(&self) -> usize {
        self.max
    }

    pub closed spec fn spec_messenger(&self) -> &'a T {
        self.messenger
    }

    /// A tracker with value zero and the given maximum.
    pub fn new(messenger: &'a T, max: usize) -> (r: LimitTracker<'a, T>)
        ensures
            r.spec_value() == 0,
            r.spec_max() == max,
            r.spec_messenger() == messenger,
    {
        LimitTracker { messenger, value: 0, max }
    }

    /// Records `value` and sends the message that `quota_message` gives for
    /// it, if any.
    pub fn set_value(&mut self, value: usize)
        ensures
            final(self).spec_value() == value,
            final(self).spec_max() == old(self).spec_max(),
            final(self).spec_messenger() == old(self).spec_messenger(),
    {
        self.value = value;
        if let Some(msg) = quota_message(self.value, self.max) {
            self.messenger.send(msg);
        }
    }
}

/// A box that holds one value.
pub struct MyBox<T>(pub T);

impl<T> MyBox<T> {
    /// A box holding `x`.
    pub fn new(x: T) -> (r: MyBox<T>)
        ensures
            r.0 == x,
    {
        MyBox(x)
    }

    /// The value in the box.
    pub fn value(&self) -> (r: &T)
        ensures
            *r == self.0,
    {
        &self.0
    }
}

impl<T> core::ops::Deref for MyBox<T> {
    type Target = T;

    fn deref(&self) -> (r: &T)
        ensures
            *r == self.0,
    {
        &self.0
    }
}

/// A cons list whose tails can be shared.
#[derive(Debug)]
pub enum List2 {
    Cons2(i32, Rc<List2>),
    Nil2,
}

impl List2 {
    /// The first value, if the list is not empty.
    pub fn head_value(&self) -> (r: Option<i32>)
        ensures
            r == (match self {
                List2::Cons2(v, _) => Some(*v),
                List2::Nil2 => None,
            }),
    {
        match self {
            List2::Cons2(value, _) => Some(*value),
            List2::Nil2 => None,
        }
    }

    /// Replaces the first value, if the list is not empty.
    pub fn modify_head_value(&mut self, new_value: i32)
        ensures
            *final(self) == (match *old(self) {
                List2::Cons2(_, tail) => List2::Cons2(new_value, tail),
                List2::Nil2 => List2::Nil2,
            }),
    {
        match self {
            List2::Cons2(value, _) => *value = new_value,
            List2::Nil2 => (),
        }
    }

    /// The tail after the first value, if the list is not empty.
    pub fn head_list(&self) -> (r: Option<&Rc<List2>>)
        ensures
            r == (match self {
                List2::Cons2(_, tail) => Some(tail),
                List2::Nil2 => None,
            }),
    {
        match self {
            List2::Cons2(_, list) => Some(list),
            List2::Nil2 => None,
        }
    }
}

} // verus!
