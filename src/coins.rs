//! Coins and their values, and adding one to an optional number.

use vstd::prelude::*;

verus! {

#[derive(Debug, Clone, Copy, PartialEq, Eq, Structural)]
pub enum UsState {
    State1,
    State2,
}

#[derive(Debug, Clone, Copy, PartialEq, Eq, Structural)]
pub enum Coin {
    Penny,
    Nickel,
    Dime,
    Quarter(UsState),
}

/// The coin's value in cents.
pub open spec fn cents(coin: Coin) -> int {
    match coin {
        Coin::Penny => 1,
        Coin::Nickel => 5,
        Coin::Dime => 10,
        Coin::Quarter(_) => 25,
    }
}

pub fn value_in_cents(coin: Coin) -> (r: i32)
    ensures
        r == cents(coin),
{
    match coin {
        Coin::Penny => 1,
        Coin::Nickel => 5,
        Coin::Dime => 10,
        Coin::Quarter(_) => 25,
    }
}

/// One more than the number, if there is one; the sum must fit in an `i32`.
pub fn plus_one(x: Option<i32>) -> (r: Option<i32>)
    requires
        x matches Some(i) ==> i < i32::MAX,
    ensures
        x matches Some(i) ==> r == Some((i + 1) as i32),
        x is None ==> r is None,
{
    match x {
        Some(i) => Some(i + 1),
        None => None,
    }
}

} // verus!
