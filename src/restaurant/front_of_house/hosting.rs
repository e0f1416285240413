//! Receiving guests.
use vstd::prelude::*;

verus! {

/// Puts a guest on the waitlist.
pub fn add_to_waitlist() {
}

/// Seats a guest.
fn seat_at_table() {
}

} // verus!
