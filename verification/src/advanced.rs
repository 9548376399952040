//! The advanced-feature exercises: function values, closures as results,
//! operator-style addition on points and units, a disambiguated trait
//! method, and bounds on sizedness.

use vstd::prelude::*;
use vstd::string::StringExecFns;

verus! {

/// One more than `x`.
pub fn add_one(x: i32) -> (r: i32)
    requires
        x < i32::MAX,
    ensures
        r == x + 1,
{
    x + 1
}

/// Applies `f` to `arg` twice and adds the two results.
pub fn do_twice<F: Fn(i32) -> i32>(f: F, arg: i32) -> (r: i32)
    requires
        call_requires(f, (arg,)),
        forall|r1: i32, r2: i32|
            call_ensures(f, (arg,), r1) && call_ensures(f, (arg,), r2) ==> i32::MIN <= r1 + r2
                <= i32::MAX,
    ensures
        exists|r1: i32, r2: i32|
            call_ensures(f, (arg,), r1) && call_ensures(f, (arg,), r2) && r == r1 + r2,
{
    f(arg) + f(arg)
}

/// A closure that adds one, handed out as a value; it accepts anything
/// below the largest `i32` and returns exactly one more than its input.
pub fn returns_closure() -> (r: impl Fn(i32) -> i32)
    ensures
        forall|x: i32| x < i32::MAX ==> call_requires(r, (x,)),
        forall|x: i32, y: i32| call_ensures(r, (x,), y) ==> y == x + 1,
{
    let f = |x: i32| -> (res: i32)
        requires
            x < i32::MAX,
        ensures
            res == x + 1,
        {
            x + 1
        };
    f
}

/// A status carrying either a code or a stop mark.
pub enum Status {
    Value(u32),
    Stop,
}

/// A point on the integer plane.
#[derive(Debug, Copy, Clone, PartialEq, Eq, Structural)]
pub struct Point {
    pub x: i32,
    pub y: i32,
}

impl Point {
    /// Componentwise addition of two points.
    pub fn add(self, other: Point) -> (r: Point)
        requires
            i32::MIN <= self.x + other.x <= i32::MAX,
            i32::MIN <= self.y + other.y <= i32::MAX,
        ensures
            r.x == self.x + other.x,
            r.y == self.y + other.y,
    {
        Point { x: self.x + other.x, y: self.y + other.y }
    }
}

/// A length in millimeters.
pub struct Millimeters(pub u32);

/// A length in meters.
pub struct Meters(pub u32);

impl Millimeters {
    /// Adds a length in meters, converted to millimeters.
    pub fn add(self, other: Meters) -> (r: Millimeters)
        requires
            self.0 + other.0 * 1000 <= u32::MAX,
        ensures
            r.0 == self.0 + other.0 * 1000,
    {
        Millimeters(self.0 + (other.0 * 1000))
    }
}

/// Anything whose young go by a name of their own.
pub trait Animal {
    fn baby_name() -> String;
}

/// A dog; its own name for a puppy differs from the animal word.
pub struct Dog;

impl Dog {
    /// What dog owners call a baby dog.
    pub fn baby_name() -> (r: String)
        ensures
            r@ == "Spot"@,
    {
        String::from_str("Spot")
    }
}

impl Animal for Dog {
    /// What a baby dog is, as an animal.
    fn baby_name() -> String {
        String::from_str("puppy")
    }
}

/// Every type parameter is sized unless said otherwise.
pub fn generic1<T: Sized>(t: T) {
}

/// A possibly unsized type must stay behind a reference.
pub fn generic2<T: ?Sized>(t: &T) {
}

} // verus!
