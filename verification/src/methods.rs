//! The method exercises: a rectangle with its area, a containment check,
//! and a square constructor.

use vstd::prelude::*;

verus! {

/// A rectangle measured in whole pixels.
#[derive(Debug)]
pub struct Rectangle {
    pub width: u32,
    pub height: u32,
}

impl Rectangle {
    /// The rectangle's area: width times height.
    pub fn area(&self) -> (r: u32)
        requires
            self.width * self.height <= u32::MAX,
        ensures
            r == self.width * self.height,
    {
        self.width * self.height
    }

    /// A rectangle can hold another one exactly when it is at least as
    /// wide and at least as tall.
    pub fn can_hold(&self, rect: &Rectangle) -> (r: bool)
        ensures
            r == (self.width >= rect.width && self.height >= rect.height),
    {
        self.width >= rect.width && self.height >= rect.height
    }

    /// A square of the given side length.
    pub fn square(size: u32) -> (r: Rectangle)
        ensures
            r.width == size,
            r.height == size,
    {
        Rectangle { width: size, height: size }
    }
}

} // verus!
