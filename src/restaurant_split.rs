//! The restaurant with each module in a file of its own.
use vstd::prelude::*;

mod back_of_house;
mod front_of_house;

pub use back_of_house::kitchen;
pub use front_of_house::hosting;

verus! {

/// Goes on the waitlist.
pub fn eat_at_restaurant() {
    hosting::add_to_waitlist();
}

/// Has the kitchen cook.
pub fn prepare_meal() {
    kitchen::cook_order();
}

} // verus!
