//! The struct exercises: building a user record and measuring a
//! rectangle.

use vstd::prelude::*;

verus! {

/// An account, as the struct exercises model it.
pub struct User {
    pub username: String,
    pub email: String,
    pub sign_in_count: u64,
    pub active: bool,
}

/// A fresh, active account with a single sign-in.
pub fn build_user(email: String, username: String) -> (r: User)
    ensures
        r.email == email,
        r.username == username,
        r.active == true,
        r.sign_in_count == 1,
{
    User { email, username, active: true, sign_in_count: 1 }
}

/// A rectangle measured in whole pixels.
#[derive(Debug)]
pub struct Rectangle {
    pub width: u32,
    pub height: u32,
}

/// The rectangle's area: width times height.
pub fn area(rect: &Rectangle) -> (r: u32)
    requires
        rect.width * rect.height <= u32::MAX,
    ensures
        r == rect.width * rect.height,
{
    rect.width * rect.height
}

} // verus!
