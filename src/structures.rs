//! Structs, methods and associated functions: users and rectangles.

use vstd::prelude::*;

verus! {

/// An account.
pub struct User {
    pub active: bool,
    pub username: String,
    pub email: String,
    pub sign_in_count: u64,
}

/// An axis-aligned rectangle given by its side lengths.
#[derive(Debug, Clone, Copy, PartialEq, Eq, Structural)]
pub struct Rectangle {
    pub width: u32,
    pub height: u32,
}

impl Rectangle {
    /// Width times height.
    pub fn rect_area(&self) -> (r: u32)
        requires
            self.width * self.height <= u32::MAX,
        ensures
            r == self.width * self.height,
    {
        self.width * self.height
    }

    /// Whether the width is non-zero.
    pub fn width(&self) -> (r: bool)
        ensures
            r == (self.width > 0),
    {
        self.width > 0
    }

    /// Whether `other` fits strictly inside `self`, both sides smaller.
    pub fn can_hold(&self, other: &Rectangle) -> (r: bool)
        ensures
            r == (self.width > other.width && self.height > other.height),
    {
        self.width > other.width && self.height > other.height
    }

    /// A square with sides of length `size`.
    pub fn square(size: u32) -> (r: Self)
        ensures
            r.width == size,
            r.height == size,
    {
        Self { width: size, height: size }
    }
}

/// A new, active user that has signed in once.
pub fn build_new_user(email: String, username: String) -> (r: User)
    ensures
        r.active,
        r.username@ == username@,
        r.email@ == email@,
        r.sign_in_count == 1,
{
    User { active: true, username: username, email: email, sign_in_count: 1 }
}

/// The same as `build_new_user`, written with the field init shorthand.
pub fn build_user(email: String, username: String) -> (r: User)
    ensures
        r.active,
        r.username@ == username@,
        r.email@ == email@,
        r.sign_in_count == 1,
{
    User { active: true, username, email, sign_in_count: 1 }
}

/// The area of a rectangle given by two side lengths.
pub fn area(width: u32, height: u32) -> (r: u32)
    requires
        width * height <= u32::MAX,
    ensures
        r == width * height,
{
    width * height
}

/// The area of a rectangle given as a (width, height) pair.
pub fn area_tuple(dimensions: (u32, u32)) -> (r: u32)
    requires
        dimensions.0 * dimensions.1 <= u32::MAX,
    ensures
        r == dimensions.0 * dimensions.1,
{
    dimensions.0 * dimensions.1
}

/// The area of a rectangle.
pub fn area_struct(rectangle: &Rectangle) -> (r: u32)
    requires
        rectangle.width * rectangle.height <= u32::MAX,
    ensures
        r == rectangle.width * rectangle.height,
{
    rectangle.width * rectangle.height
}

} // verus!
