//! Receiving and seating guests.

use vstd::prelude::*;

verus! {

/// Puts a party on the waiting list.
pub fn add_to_waitlist() {
}

} // verus!
