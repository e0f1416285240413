//! A customer, reaching the host through a path brought into scope.
use vstd::prelude::*;
use super::front_of_house::hosting;

verus! {

/// Goes on the waitlist through the module path.
pub fn eat_at_restaurant() {
    hosting::add_to_waitlist();
}

/// Goes on the waitlist through the function itself.
pub fn eat2() {
    super::front_of_house::hosting::add_to_waitlist();
}

} // verus!
