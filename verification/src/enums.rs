//! The enum exercises: kinds of IP addresses and a message type with one
//! variant per shape of data.

use vstd::prelude::*;

verus! {

/// Just the two families of IP addresses.
pub enum IpAddrKind {
    V4,
    V6,
}

/// An address kept as text, tagged with its family.
pub enum IpAddr {
    V4(String),
    V6(String),
}

/// A V4 address as its four octets; a V6 address still as text.
pub enum IpAddr2 {
    V4(u8, u8, u8, u8),
    V6(String),
}

/// One variant per shape of data a message can carry.
pub enum Message {
    Quit,
    Move { x: i32, y: i32 },
    Write(String),
    ChangeColor(i32, i32, i32),
}

impl Message {
    /// Handling a message; the exercise leaves the body empty.
    pub fn call(&self) {
    }
}

/// Routing an address family; the exercise leaves the body empty.
pub fn route(ip_kind: IpAddrKind) {
}

} // verus!
