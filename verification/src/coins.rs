//! Matching exercises: the value of a coin and adding one inside an
//! `Option`.

use vstd::prelude::*;

verus! {

/// The states a quarter can commemorate here.
#[derive(Debug)]
pub enum UsState {
    Alabama,
    Alaska,
}

/// The coins of the matching exercise; a quarter carries its state.
pub enum Coin {
    Penny,
    Nickel,
    Dime,
    Quarter(UsState),
}

/// The worth of each coin in cents: 1, 5, 10 and 25.
pub fn value_in_cents(coin: Coin) -> (r: u8)
    ensures
        r == match coin {
            Coin::Penny => 1u8,
            Coin::Nickel => 5u8,
            Coin::Dime => 10u8,
            Coin::Quarter(_) => 25u8,
        },
{
    match coin {
        Coin::Penny => 1,
        Coin::Nickel => 5,
        Coin::Dime => 10,
        Coin::Quarter(_state) => 25,
    }
}

/// One more than the given number, when there is one.
pub fn plus_one(x: Option<i32>) -> (r: Option<i32>)
    requires
        x is Some ==> x->0 < i32::MAX,
    ensures
        x is None ==> r is None,
        x is Some ==> r is Some && r->0 == x->0 + 1,
{
    match x {
        None => None,
        Some(i) => Some(i + 1),
    }
}

} // verus!
