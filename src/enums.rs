//! Enums with and without data, and functions that match on them.
use vstd::prelude::*;

verus! {

/// The two kinds of IP address.
pub enum IpAddrKind {
    V4,
    V6,
}

/// An IP address kept as text.
pub enum IpAddr {
    V4(String),
    V6(String),
}

/// An IP address: four octets, or text for the longer form.
pub enum IpAddr2 {
    V4(u8, u8, u8, u8),
    V6(String),
}

/// Accepts an address kind; nothing is routed yet.
pub fn route(ip_kind: IpAddrKind) {
}

/// A message of one of four shapes.
#[derive(Debug)]
pub enum Message {
    Quit,
    Move { x: i32, y: i32 },
    Write(String),
    ChangeColor(i32, i32, i32),
}

/// A US state, named on the back of a quarter.
#[derive(Clone, Copy, Debug, PartialEq, Eq, Structural)]
pub enum UsState {
    Alabama,
    Alaska,
}

/// A US coin.
#[derive(Clone, Copy, Debug, PartialEq, Eq, Structural)]
pub enum Coin {
    Penny,
    Nickel,
    Dime,
    Quarter(UsState),
}

/// The value of a coin in cents.
pub fn value_in_cents(coin: &Coin) -> (r: u8)
    ensures
        r == (match coin {
            Coin::Penny => 1u8,
            Coin::Nickel => 5u8,
            Coin::Dime => 10u8,
            Coin::Quarter(_) => 25u8,
        }),
{
    match coin {
        Coin::Penny => 1,
        Coin::Nickel => 5,
        Coin::Dime => 10,
        Coin::Quarter(_) => 25,
    }
}

/// One more than the value held, or nothing when nothing is held.
pub fn plus_one(x: Option<i32>) -> (r: Option<i32>)
    requires
        x matches Some(i) ==> i < i32::MAX,
    ensures
        r == (match x {
            Some(i) => Some((i + 1) as i32),
            None => None::<i32>,
        }),
{
    match x {
        None => None,
        Some(i) => Some(i + 1),
    }
}

/// What a roll of the dice makes the player do.
pub fn add_fancy_hat() {
}

pub fn remove_fancy_hat() {
}

pub fn move_player(num_spaces: u8) {
}

pub fn reroll() {
}

} // verus!
