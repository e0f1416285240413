//! Cooking.
use vstd::prelude::*;

verus! {

/// Cooks an order.
pub fn cook_order() {
}

} // verus!
