//! Receiving guests.
use vstd::prelude::*;

verus! {

/// Puts a guest on the waitlist.
pub fn add_to_waitlist() {
}

} // verus!
