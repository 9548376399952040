//! The ownership exercises: moving strings in and out of functions, and
//! borrowing them to measure or change them.

use vstd::prelude::*;
use vstd::string::StringExecFns;
use vstd::utf8::encode_utf8;

verus! {

/// Hands a freshly made greeting out to the caller.
pub fn gives_ownership() -> (r: String)
    ensures
        r@ == "hello"@,
{
    let some_string = String::from_str("hello");
    some_string
}

/// Takes the string and hands the very same one back.
pub fn takes_and_gives_back(a_string: String) -> (r: String)
    ensures
        r == a_string,
{
    a_string
}

/// Moves a few strings around; nothing observable is left at the end.
pub fn return_values_and_scope() {
    let s1 = gives_ownership();
    let s2 = String::from_str("hello");
    let s3 = takes_and_gives_back(s2);
}

/// The byte length of the borrowed string.
pub fn calculate_length(s: &String) -> (r: usize)
    ensures
        r == (encode_utf8(s@).len() as usize),
{
    s.as_str().len()
}

/// Appends `, world` through the mutable borrow.
pub fn change2(some_string: &mut String)
    ensures
        final(some_string)@ == old(some_string)@ + ", world"@,
{
    some_string.append(", world");
}

} // verus!
