//! Enums and `match`: coin values and adding one inside an `Option`.

use vstd::prelude::*;

verus! {

/// A US coin.
#[derive(Debug, Clone, Copy, PartialEq, Eq, Structural)]
pub enum Coin {
    Penny,
    Nickel,
    Dime,
    Quarter,
}

/// A US state, as minted on the back of a state quarter.
#[derive(Debug, Clone, Copy, PartialEq, Eq, Structural)]
pub enum UsState {
    Alabama,
    Alaska,
    California,
    Arizona,
}

/// A US coin, where a quarter records its state.
#[derive(Debug, Clone, Copy, PartialEq, Eq, Structural)]
pub enum CoinState {
    Penny,
    Nickel,
    Dime,
    Quarter(UsState),
}

/// The value of a coin in cents.
pub fn value_in_cents(coin: Coin) -> (r: u8)
    ensures
        r == match coin {
            Coin::Penny => 1u8,
            Coin::Nickel => 5u8,
            Coin::Dime => 10u8,
            Coin::Quarter => 25u8,
        },
{
    match coin {
        Coin::Penny => 1,
        Coin::Nickel => 5,
        Coin::Dime => 10,
        Coin::Quarter => 25,
    }
}

/// The value of a coin in cents; a quarter is worth 25 whatever its state.
pub fn value_in_cents_state(coin: CoinState) -> (r: u8)
    ensures
        r == match coin {
            CoinState::Penny => 1u8,
            CoinState::Nickel => 5u8,
            CoinState::Dime => 10u8,
            CoinState::Quarter(_) => 25u8,
        },
{
    match coin {
        CoinState::Penny => 1,
        CoinState::Nickel => 5,
        CoinState::Dime => 10,
        CoinState::Quarter(_state) => 25,
    }
}

/// Adds one to the value inside, if there is one.
pub fn plus_one(x: Option<i32>) -> (r: Option<i32>)
    requires
        x is Some ==> x->0 < i32::MAX,
    ensures
        r == match x {
            None => None,
            Some(i) => Some((i + 1) as i32),
        },
{
    match x {
        None => None,
        Some(i) => Some(i + 1),
    }
}

} // verus!
