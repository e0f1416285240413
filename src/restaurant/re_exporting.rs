//! The host module, offered again under a shorter path.
use vstd::prelude::*;

pub use super::front_of_house::hosting;

verus! {

/// Goes on the waitlist through the re-exported path.
pub fn eat_at_restaurant() {
    hosting::add_to_waitlist();
}

} // verus!
