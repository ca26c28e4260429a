//! Generic structs and methods, and a search for the largest element.

use vstd::prelude::*;

verus! {

/// A point whose coordinates share one type.
pub struct Point<T> {
    pub x: T,
    pub y: T,
}

impl<T> Point<T> {
    /// The x coordinate.
    pub fn x(&self) -> (r: &T)
        ensures
            *r == self.x,
    {
        &self.x
    }
}

/// A point whose coordinates may have different types.
pub struct PointCart<X1, Y1> {
    pub x: X1,
    pub y: Y1,
}

impl<X1, Y1> PointCart<X1, Y1> {
    /// A point with the x coordinate of `self` and the y coordinate of `other`.
    pub fn mixup<X2, Y2>(self, other: PointCart<X2, Y2>) -> (r: PointCart<X1, Y2>)
        ensures
            r.x == self.x,
            r.y == other.y,
    {
        PointCart { x: self.x, y: other.y }
    }
}

/// The largest element of a non-empty list.
pub fn largest(list: &[i32]) -> (r: &i32)
    requires
        list@.len() > 0,
    ensures
        list@.contains(*r),
        forall|i: int| 0 <= i < list@.len() ==> list@[i] <= *r,
{
    let mut best: usize = 0;
    let mut i: usize = 1;
    while i < list.len()
        invariant
            1 <= i <= list@.len(),
            best < list@.len(),
            forall|j: int| 0 <= j < i ==> list@[j] <= list@[best as int],
        decreases list@.len() - i,
    {
        if list[i] > list[best] {
            best = i;
        }
        i = i + 1;
    }
    &list[best]
}

} // verus!
