//! A trait for types that can announce themselves by name; each
//! implementor writes its own announcement.

use vstd::prelude::*;

verus! {

/// Announces the implementing type.
pub trait HelloMacro {
    fn hello_macro();
}

} // verus!
