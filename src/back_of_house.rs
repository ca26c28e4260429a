//! The kitchen: breakfasts and appetizers.

use vstd::prelude::*;
use vstd::string::*;

verus! {

/// A breakfast: the guest picks the toast, the kitchen picks the fruit.
pub struct Breakfast {
    pub toast: String,
    seasonal_fruit: String,
}

impl Breakfast {
    /// The toast the guest chose.
    pub closed spec fn toast_view(&self) -> Seq<char> {
        self.toast@
    }

    /// The fruit that comes with the meal, which only the kitchen sets.
    pub closed spec fn seasonal_fruit_view(&self) -> Seq<char> {
        self.seasonal_fruit@
    }

    /// A summer breakfast with the given toast, served with peaches.
    pub fn summer(toast: &str) -> (r: Breakfast)
        ensures
            r.toast_view() == toast@,
            r.seasonal_fruit_view() == "peaches"@,
    {
        Breakfast { toast: String::from_str(toast), seasonal_fruit: String::from_str("peaches") }
    }
}

/// An appetizer, all of whose variants are public.
#[derive(Debug, Clone, Copy, PartialEq, Eq, Structural)]
pub enum Appetizer {
    Soup,
    Salad,
}

} // verus!
