//! Trait objects: a screen runs every drawable component it holds,
//! whatever concrete type each one is.

use vstd::prelude::*;

verus! {

/// Anything that can draw itself; implementors decide what drawing means.
pub trait Draw {
    fn draw(&self);
}

/// A screen full of drawable components of any mix of types.
pub struct Screen {
    pub components: Vec<Box<dyn Draw>>,
}

impl Screen {
    /// Draws every component, in order.
    pub fn run(&self) {
        let mut i: usize = 0;
        while i < self.components.len()
            decreases self.components@.len() - i,
        {
            self.components[i].draw();
            i = i + 1;
        }
    }
}

/// A button with its size and label.
pub struct Button {
    pub width: u32,
    pub height: u32,
    pub label: String,
}

impl Draw for Button {
    /// Drawing a button; the exercise leaves the body empty.
    fn draw(&self) {
    }
}

} // verus!
