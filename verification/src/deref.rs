//! The smart-pointer exercises: following plain references and boxes, and
//! a box-like wrapper of our own.

use vstd::prelude::*;

verus! {

/// Following a plain reference reads the value it points to.
pub fn dereference_operator() {
    let x: i32 = 5;
    let y = &x;
    assert(5 == x);
    assert(5 == *y);
}

/// A box points at a copy of the value on the heap; following it reads
/// that copy.
pub fn using_box_like_a_reference() {
    let x: i32 = 5;
    let y = Box::new(x);
    assert(5 == x);
    assert(5 == *y);
}

/// A box-like wrapper around a single value.
pub struct MyBox<T>(pub T);

impl<T> MyBox<T> {
    /// Wraps the value.
    pub fn new(x: T) -> (r: MyBox<T>)
        ensures
            r.0 == x,
    {
        MyBox(x)
    }
}

/// Our wrapper holds the value just as a box does; its field reads back
/// the wrapped copy.
pub fn using_mybox_like_a_reference() {
    let x: i32 = 5;
    let y = MyBox::new(x);
    assert(5 == x);
    assert(5 == y.0);
}

} // verus!
