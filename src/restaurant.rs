//! A restaurant laid out as a module tree: paths, privacy and re-exports.
use vstd::prelude::*;
use std::collections::HashMap;

mod back_of_house;
pub mod customer;
mod front_of_house;
pub mod point;
pub mod re_exporting;

pub use back_of_house::{Appetizer, Breakfast};
pub use front_of_house::hosting;

verus! {

/// Orders a summer breakfast with rye toast, then changes the bread to wheat,
/// putting the guest on the waitlist along the way.
pub fn eat_at_restaurant() -> (r: Breakfast)
    ensures
        r.spec_toast()@ == "wheat"@,
        r.seasonal_fruit()@ == "peaches"@,
{
    crate::restaurant::front_of_house::hosting::add_to_waitlist();
    front_of_house::hosting::add_to_waitlist();
    let mut meal = back_of_house::Breakfast::summer("rye");
    meal.set_toast("wheat");
    hosting::add_to_waitlist();
    meal
}

/// Hands an order to the guest.
fn deliver_order() {
}

/// A map from 1 to 2.
pub fn play_with_hashmap() -> (r: HashMap<u64, u64>)
    ensures
        r@ == map![1u64 => 2u64],
{
    let mut map: HashMap<u64, u64> = HashMap::new();
    map.insert(1, 2);
    assert(map@ =~= map![1u64 => 2u64]);
    map
}

/// Succeeds with nothing, as a formatting step would.
pub fn function1() -> (r: Result<(), ()>)
    ensures
        r is Ok,
{
    Ok(())
}

/// Succeeds with nothing, as an input step would.
pub fn function2() -> (r: Result<(), ()>)
    ensures
        r is Ok,
{
    Ok(())
}

/// Succeeds with nothing.
pub fn function3() -> (r: Result<(), ()>)
    ensures
        r is Ok,
{
    Ok(())
}

/// Succeeds with nothing.
pub fn function4() -> (r: Result<(), ()>)
    ensures
        r is Ok,
{
    Ok(())
}

} // verus!
