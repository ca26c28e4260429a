//! Small, self-contained building blocks, each with a machine-checked contract:
//! the Fibonacci sequence, rectangle geometry, coin values, word slicing,
//! summaries through a trait, and a restaurant module tree.

pub mod back_of_house;
pub mod basics;
pub mod enums;
pub mod fibonacci;
pub mod front_of_house;
pub mod generics;
pub mod ownership;
pub mod restaurant;
pub mod structures;
pub mod summary;

pub use back_of_house::{Appetizer, Breakfast};
pub use fibonacci::{compute, FibError};
pub use front_of_house::hosting;
pub use front_of_house::hosting::add_to_waitlist;
pub use restaurant::{
    add, eat_at_restaurant_enum, eat_at_restaurant_path, eat_at_restaurant_use_keyword,
};
pub use summary::{NewsArticle, Summary, Tweet};
