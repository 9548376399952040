//! The reference-counting exercises: a cons list whose tails are shared
//! through reference-counted pointers.

use vstd::prelude::*;
use std::rc::Rc;

verus! {

/// A list that is either a value with a shared tail, or empty.
pub enum List {
    Cons(i32, Rc<List>),
    Nil,
}

impl List {
    /// The shared tail of a non-empty list.
    pub fn tail(&self) -> (r: Option<&Rc<List>>)
        ensures
            r is Some <==> self is Cons,
            self is Cons ==> *r->Some_0 == self->Cons_1,
    {
        match self {
            List::Cons(_, item) => Some(item),
            List::Nil => None,
        }
    }
}

/// Sharing one tail between two lists fails with plain ownership; the
/// exercise keeps only the lesson.
pub fn wont_compile() {
}

/// With reference counting, two lists can share one tail.
pub fn compiles() {
    let a = Rc::new(List::Cons(5, Rc::new(List::Cons(10, Rc::new(List::Nil)))));
    let b = List::Cons(3, Rc::clone(&a));
    let a = List::Cons(5, Rc::clone(&a));
}

} // verus!
