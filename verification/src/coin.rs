//! Coins as a tagged union, with the exhaustive dispatch to a value in cents
//! and the announcement line a state quarter carries.

use vstd::prelude::*;

verus! {

/// The state stamped on a quarter.
#[derive(Clone, Copy, Debug, PartialEq, Eq, Structural)]
pub enum UsState {
    Alabama,
    Alaska,
    Arizona,
    Arkansas,
    More,
}

/// A coin is exactly one of four variants; only a quarter carries data.
#[derive(Clone, Copy, Debug, PartialEq, Eq, Structural)]
pub enum Coin {
    Penny,
    Nickel,
    Dime,
    Quarter(UsState),
}

/// The name of a state, as it is spelled in an announcement.
pub open spec fn spec_state_name(state: UsState) -> Seq<char> {
    match state {
        UsState::Alabama => "Alabama"@,
        UsState::Alaska => "Alaska"@,
        UsState::Arizona => "Arizona"@,
        UsState::Arkansas => "Arkansas"@,
        UsState::More => "More"@,
    }
}

/// The line announced when a state quarter is inspected.
pub open spec fn spec_quarter_line(state: UsState) -> Seq<char> {
    "State quarter from "@ + spec_state_name(state) + "."@
}

impl UsState {
    /// The state's name as text.
    pub fn name(&self) -> (r: &'static str)
        ensures
            r@ == spec_state_name(*self),
    {
        match self {
            UsState::Alabama => "Alabama",
            UsState::Alaska => "Alaska",
            UsState::Arizona => "Arizona",
            UsState::Arkansas => "Arkansas",
            UsState::More => "More",
        }
    }
}

impl Coin {
    /// Exactly one variant is active in every coin.
    pub proof fn lemma_one_active_variant(&self)
        ensures
            (if *self is Penny { 1int } else { 0 }) + (if *self is Nickel { 1int } else { 0 })
                + (if *self is Dime { 1int } else { 0 }) + (if *self is Quarter { 1int } else { 0 })
                == 1,
    {
    }
}

/// Distinct coin variants are distinguishable: no two of them compare equal,
/// whatever state a quarter carries.
pub proof fn lemma_coin_variants_distinct(s: UsState)
    ensures
        Coin::Penny != Coin::Nickel,
        Coin::Penny != Coin::Dime,
        Coin::Penny != Coin::Quarter(s),
        Coin::Nickel != Coin::Dime,
        Coin::Nickel != Coin::Quarter(s),
        Coin::Dime != Coin::Quarter(s),
{
}

/// The value of each coin variant in cents: an exhaustive dispatch with no
/// fallback, so an added variant would fail to build rather than be ignored.
/// The value of a quarter does not depend on the state it carries.
pub fn value_in_cents(coin: Coin) -> (cents: u8)
    ensures
        coin is Penny ==> cents == 1,
        coin is Nickel ==> cents == 5,
        coin is Dime ==> cents == 10,
        coin is Quarter ==> cents == 25,
{
    match coin {
        Coin::Penny => 1,
        Coin::Nickel => 5,
        Coin::Dime => 10,
        Coin::Quarter(_) => 25,
    }
}

/// The announcement a coin makes on inspection: a state quarter announces its
/// state, every other coin is silent.
pub fn announcement(coin: Coin) -> (r: Option<String>)
    ensures
        coin matches Coin::Quarter(state) ==> (r matches Some(line) && line@ == spec_quarter_line(
            state,
        )),
        !(coin is Quarter) ==> r is None,
{
    match coin {
        Coin::Quarter(state) => {
            let mut line = String::from_str("State quarter from ");
            line.append(state.name());
            line.append(".");
            proof {
                assert(line@ =~= spec_quarter_line(state));
            }
            Some(line)
        },
        _ => None,
    }
}

} // verus!
