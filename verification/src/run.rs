//! The sample entry routine's console output, computed line by line with the
//! exact text pinned down; printing the lines is left to the caller.

use vstd::prelude::*;
use crate::coin::Coin;
use crate::coin::UsState;
use crate::coin::announcement;
use crate::coin::value_in_cents;
use crate::message::Message;
use crate::text::dec_digits;
use crate::text::u32_dec;

verus! {

/// The lines the entry routine emits, in order: the rendering of a
/// `Write("hello")` event, the announcement of an Alaska state quarter,
/// and that quarter's value in cents.
pub fn entry_lines() -> (lines: Vec<String>)
    ensures
        lines@.len() == 3,
        lines@[0]@ == "Write(\"hello\")"@,
        lines@[1]@ == "State quarter from Alaska."@,
        lines@[2]@ == "coin_value is 25 cents."@,
{
    let m = Message::Write(String::from_str("hello"));
    let first = m.render();
    proof {
        reveal_strlit("Write(\"");
        reveal_strlit("hello");
        reveal_strlit("\")");
        reveal_strlit("Write(\"hello\")");
        assert(first@ =~= "Write(\"hello\")"@);
    }
    let coin = Coin::Quarter(UsState::Alaska);
    let second = announcement(coin).unwrap();
    proof {
        reveal_strlit("State quarter from ");
        reveal_strlit("Alaska");
        reveal_strlit(".");
        reveal_strlit("State quarter from Alaska.");
        assert(second@ =~= "State quarter from Alaska."@);
    }
    let cents = value_in_cents(coin);
    let mut third = String::from_str("coin_value is ");
    third.append(u32_dec(cents as u32).as_str());
    third.append(" cents.");
    proof {
        reveal_strlit("coin_value is ");
        reveal_strlit(" cents.");
        reveal_strlit("coin_value is 25 cents.");
        assert(dec_digits(2nat) =~= seq!['2']);
        assert(dec_digits(25nat) =~= seq!['2', '5']);
        assert(third@ =~= "coin_value is 25 cents."@);
    }
    let mut lines: Vec<String> = Vec::new();
    lines.push(first);
    lines.push(second);
    lines.push(third);
    lines
}

} // verus!
