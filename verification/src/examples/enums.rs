//! Enum snippets: defining variants, carrying data in variants, matching on
//! a coin's denomination, and matching on `Option`.

use vstd::prelude::*;

verus! {

/// An IP address is either a version four or a version six address.
#[derive(Clone, Copy, Debug, PartialEq, Eq, Structural)]
pub enum IpAddrKind {
    V4,
    V6,
}

/// An address record tagging its textual form with its kind.
#[derive(Debug)]
pub struct IpAddr {
    pub kind: IpAddrKind,
    pub address: String,
}

/// Accepts an address of either kind: both variants are the same type.
pub fn route(ip_kind: IpAddrKind) {
    match ip_kind {
        IpAddrKind::V4 => (),
        IpAddrKind::V6 => (),
    }
}

/// A message whose variants carry no data, named fields, one value, or a
/// tuple of values.
#[derive(Debug)]
pub enum Message {
    Quit,
    Move { x: i32, y: i32 },
    Write(String),
    ChangeColor(i32, i32, i32),
}

impl Message {
    /// A method may be called on any variant of the enum.
    pub fn call(&self) {
        match self {
            Message::Quit => (),
            Message::Move { x: _, y: _ } => (),
            Message::Write(_) => (),
            Message::ChangeColor(_, _, _) => (),
        }
    }
}

/// A state minted on a quarter.
#[derive(Clone, Copy, Debug, PartialEq, Eq, Structural)]
pub enum UsState {
    Alabama,
    Alaska,
}

/// A coin denomination; a quarter also binds the state it was minted for.
#[derive(Clone, Copy, Debug, PartialEq, Eq, Structural)]
pub enum Coin {
    Penny,
    Nickel,
    Dime,
    Quarter(UsState),
}

/// The value of each denomination in cents.
pub open spec fn coin_cents(coin: Coin) -> u8 {
    match coin {
        Coin::Penny => 1,
        Coin::Nickel => 5,
        Coin::Dime => 10,
        Coin::Quarter(_) => 25,
    }
}

/// Matches a coin against every denomination; a quarter's value does not
/// depend on the state bound by the pattern.
pub fn value_in_cents(coin: Coin) -> (cents: u8)
    ensures
        cents == coin_cents(coin),
{
    match coin {
        Coin::Penny => 1,
        Coin::Nickel => 5,
        Coin::Dime => 10,
        Coin::Quarter(_state) => 25,
    }
}

/// Matching on `Option`: `None` stays `None`, `Some(i)` becomes
/// `Some(i + 1)`. The match is exhaustive: leaving out the `None` arm would
/// not compile.
pub fn plus_one(x: Option<i32>) -> (r: Option<i32>)
    requires
        x matches Some(i) ==> i < i32::MAX,
    ensures
        r == match x {
            None => None::<i32>,
            Some(i) => Some((i + 1) as i32),
        },
{
    match x {
        None => None,
        Some(i) => Some(i + 1),
    }
}

} // verus!
