//! The restaurant as a whole: orders placed through the module tree.

use rand::Rng;
use vstd::prelude::*;

use crate::back_of_house::Appetizer;
use crate::front_of_house::hosting;

verus! {

/// The sum of two numbers.
pub fn add(left: u64, right: u64) -> (r: u64)
    requires
        left + right <= u64::MAX,
    ensures
        r == left + right,
{
    left + right
}

/// Puts a party on the waiting list, once by an absolute path and once by a
/// relative one.
pub fn eat_at_restaurant_path() {
    crate::front_of_house::hosting::add_to_waitlist();
    hosting::add_to_waitlist();
}

/// Orders one appetizer of each kind, returned in the order they were placed.
pub fn eat_at_restaurant_enum() -> (r: (Appetizer, Appetizer))
    ensures
        r == (Appetizer::Soup, Appetizer::Salad),
{
    let order1 = Appetizer::Soup;
    let order2 = Appetizer::Salad;
    (order1, order2)
}

/// Puts three parties on the waiting list through the imported module.
pub fn eat_at_restaurant_use_keyword() {
    hosting::add_to_waitlist();
    hosting::add_to_waitlist();
    hosting::add_to_waitlist();
}

/// Relies on rand's `thread_rng().gen_range(low..=high)`, which returns a
/// value of the inclusive range and panics only when it is empty.
#[verifier::external_body]
fn random_in_range(low: u32, high: u32) -> (r: u32)
    requires
        low <= high,
    ensures
        low <= r <= high,
{
    rand::thread_rng().gen_range(low..=high)
}

/// A secret number drawn at random from 1 to 100.
pub fn rand_num() -> (r: u32)
    ensures
        1 <= r <= 100,
{
    random_in_range(1, 100)
}

} // verus!
