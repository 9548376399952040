//! A guess that is only ever between 1 and 100, with a getter for its
//! value.

use vstd::prelude::*;

verus! {

/// A value between 1 and 100; the constructor refuses anything else, so
/// every function taking a [`Guess`] may rely on the range.
pub struct Guess {
    value: i32,
}

impl Guess {
    /// Wraps a value between 1 and 100.
    pub fn new(value: i32) -> (r: Guess)
        requires
            1 <= value <= 100,
        ensures
            r.spec_value() == value,
    {
        Guess { value }
    }

    /// The wrapped value, always between 1 and 100... as far as the
    /// constructor is concerned.
    pub closed spec fn spec_value(&self) -> int {
        self.value as int
    }

    /// The wrapped value.
    pub fn value(&self) -> (r: i32)
        ensures
            r == self.spec_value(),
    {
        self.value
    }
}

} // verus!
