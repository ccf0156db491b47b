//! Generics snippets: the duplicated `largest` functions for one element
//! type each, the deduplicated form, and a generic point type.

use vstd::prelude::*;

verus! {

/// The largest element of a nonempty slice of `i32`: an element of the
/// slice that no element exceeds.
pub fn largest(list: &[i32]) -> (r: i32)
    requires
        list@.len() > 0,
    ensures
        list@.contains(r),
        forall|j: int| 0 <= j < list@.len() ==> list@[j] <= r,
{
    let mut largest = list[0];
    let mut i: usize = 1;
    while i < list.len()
        invariant
            1 <= i <= list@.len(),
            list@.contains(largest),
            forall|j: int| 0 <= j < i ==> list@[j] <= largest,
        decreases list@.len() - i,
    {
        if list[i] > largest {
            largest = list[i];
        }
        i += 1;
    }
    largest
}

/// The duplicated form of [`largest`] for `i32` alone.
pub fn largest_i32(list: &[i32]) -> (r: i32)
    requires
        list@.len() > 0,
    ensures
        list@.contains(r),
        forall|j: int| 0 <= j < list@.len() ==> list@[j] <= r,
{
    let mut largest = list[0];
    let mut i: usize = 1;
    while i < list.len()
        invariant
            1 <= i <= list@.len(),
            list@.contains(largest),
            forall|j: int| 0 <= j < i ==> list@[j] <= largest,
        decreases list@.len() - i,
    {
        if list[i] > largest {
            largest = list[i];
        }
        i += 1;
    }
    largest
}

/// The duplicated form of [`largest`] for `char` alone.
pub fn largest_char(list: &[char]) -> (r: char)
    requires
        list@.len() > 0,
    ensures
        list@.contains(r),
        forall|j: int| 0 <= j < list@.len() ==> list@[j] <= r,
{
    let mut largest = list[0];
    let mut i: usize = 1;
    while i < list.len()
        invariant
            1 <= i <= list@.len(),
            list@.contains(largest),
            forall|j: int| 0 <= j < i ==> list@[j] <= largest,
        decreases list@.len() - i,
    {
        if list[i] > largest {
            largest = list[i];
        }
        i += 1;
    }
    largest
}

/// A point whose coordinates may have two different types.
#[derive(Clone, Copy, Debug)]
pub struct Point<T, U> {
    pub x: T,
    pub y: U,
}

impl<T, U> Point<T, U> {
    /// Borrows the first coordinate.
    pub fn x(&self) -> (r: &T)
        ensures
            r == self.x,
    {
        &self.x
    }

    /// Combines this point's first coordinate with another point's second
    /// coordinate; the two points may differ in both coordinate types.
    pub fn mixup<V, W>(self, other: Point<V, W>) -> (r: Point<T, W>)
        ensures
            r.x == self.x,
            r.y == other.y,
    {
        Point { x: self.x, y: other.y }
    }
}

} // verus!
