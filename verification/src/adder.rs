//! Small arithmetic and greeting helpers, together with a guessing-game
//! value type whose constructor only accepts values between 1 and 100.

use vstd::prelude::*;
use vstd::string::StringExecFns;

verus! {

/// A rectangle measured in whole pixels.
pub struct Rectangle {
    pub width: u32,
    pub height: u32,
}

impl Rectangle {
    /// A rectangle can hold another one exactly when it is strictly wider
    /// and strictly taller.
    pub fn can_hold(&self, other: &Rectangle) -> (r: bool)
        ensures
            r == (self.width > other.width && self.height > other.height),
    {
        self.width > other.width && self.height > other.height
    }
}

/// Adds two to the given number.
pub fn add_two(a: i32) -> (r: i32)
    requires
        a + 2 <= i32::MAX,
    ensures
        r == a + 2,
{
    a + 2
}

/// Builds the greeting `Hello <name>!`.
pub fn greeting(name: &str) -> (r: String)
    ensures
        r@ == "Hello "@ + name@ + "!"@,
{
    let mut s = String::from_str("Hello ");
    s.append(name);
    s.append("!");
    s
}

/// A guess in the guessing game, meant to stay between 1 and 100: the
/// tests hold the constructor to that range, so callers owe it.
pub struct Guess {
    value: i32,
}

/// A guess whose constructor checks its bounds before building a [`Guess`].
pub struct Guess2 {
    value: i32,
}

impl Guess {
    /// The value the guess was built from.
    pub closed spec fn spec_value(&self) -> int {
        self.value as int
    }

    /// Wraps a value between 1 and 100; anything else is refused at the
    /// door, as the guessing game intends.
    pub fn new(value: i32) -> (r: Guess)
        requires
            1 <= value <= 100,
        ensures
            r.spec_value() == value,
    {
        Guess { value }
    }
}

impl Guess2 {
    /// Builds a [`Guess`] from a value between 1 and 100.
    pub fn new(value: i32) -> (r: Guess)
        requires
            1 <= value <= 100,
        ensures
            r.spec_value() == value,
    {
        Guess { value }
    }
}

} // verus!
