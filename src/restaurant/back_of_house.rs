//! The kitchen side: meals and how orders are fixed.
use vstd::prelude::*;
use vstd::string::StringExecFns;

verus! {

/// Cooks the order again and sends it out.
fn fix_incorrect_order() {
    cook_order();
    super::deliver_order();
}

fn cook_order() {
}

/// A breakfast: the guest picks the toast, the kitchen the fruit.
pub struct Breakfast {
    pub toast: String,
    seasonal_fruit: String,
}

impl Breakfast {
    /// The toast the guest picked.
    pub closed spec fn spec_toast(&self) -> String {
        self.toast
    }

    /// The fruit of the season, which the guest cannot change.
    pub closed spec fn seasonal_fruit(&self) -> String {
        self.seasonal_fruit
    }

    /// A summer breakfast with the given toast and peaches.
    pub fn summer(toast: &str) -> (r: Breakfast)
        ensures
            r.spec_toast()@ == toast@,
            r.seasonal_fruit()@ == "peaches"@,
    {
        Breakfast { toast: String::from_str(toast), seasonal_fruit: String::from_str("peaches") }
    }

    /// Changes the toast; the fruit stays.
    pub fn set_toast(&mut self, toast: &str)
        ensures
            final(self).spec_toast()@ == toast@,
            final(self).seasonal_fruit() == old(self).seasonal_fruit(),
    {
        self.toast = String::from_str(toast);
    }
}

/// A starter.
pub enum Appetizer {
    Soup,
    Salad,
}

} // verus!
