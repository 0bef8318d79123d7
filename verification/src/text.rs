//! The human-readable reasons that audit records carry.

use vstd::prelude::*;
use vstd::string::*;

verus! {

/// The character of one decimal digit.
pub open spec fn digit_char(d: nat) -> char {
    if d == 0 {
        '0'
    } else if d == 1 {
        '1'
    } else if d == 2 {
        '2'
    } else if d == 3 {
        '3'
    } else if d == 4 {
        '4'
    } else if d == 5 {
        '5'
    } else if d == 6 {
        '6'
    } else if d == 7 {
        '7'
    } else if d == 8 {
        '8'
    } else {
        '9'
    }
}

/// A number in decimal digits, without leading zeros.
pub open spec fn decimal_digits(n: nat) -> Seq<char>
    decreases n,
{
    if n < 10 {
        seq![digit_char(n)]
    } else {
        decimal_digits(n / 10).push(digit_char(n % 10))
    }
}

/// The reason recorded when a player catches the infection from `source`.
pub open spec fn proximity_text(source: Seq<char>) -> Seq<char> {
    "Infected by proximity to <@"@ + source + ">"@
}

/// The reason recorded when a player is cured by the messages they sent.
pub open spec fn threshold_text(threshold: u32) -> Seq<char> {
    "Sent "@ + decimal_digits(threshold as nat) + " messages while infected"@
}

/// The reason recorded when a player is cured because the infection lasted too long.
pub open spec fn timeout_text(timeout: u64) -> Seq<char> {
    "Was infected for more than "@ + decimal_digits(timeout as nat) + " seconds"@
}

/// The reason recorded when `by` infects a player by command.
pub open spec fn manual_infection_text(by: Seq<char>) -> Seq<char> {
    "Manually infected by <@"@ + by + ">"@
}

/// The reason recorded when `by` cures a player by command.
pub open spec fn manual_cure_text(by: Seq<char>) -> Seq<char> {
    "Manually cured by <@"@ + by + ">"@
}

fn digit(d: u64) -> (s: &'static str)
    requires
        d < 10,
    ensures
        s@ == seq![digit_char(d as nat)],
{
    proof {
        reveal_strlit("0");
        reveal_strlit("1");
        reveal_strlit("2");
        reveal_strlit("3");
        reveal_strlit("4");
        reveal_strlit("5");
        reveal_strlit("6");
        reveal_strlit("7");
        reveal_strlit("8");
        reveal_strlit("9");
    }
    let s = if d == 0 {
        "0"
    } else if d == 1 {
        "1"
    } else if d == 2 {
        "2"
    } else if d == 3 {
        "3"
    } else if d == 4 {
        "4"
    } else if d == 5 {
        "5"
    } else if d == 6 {
        "6"
    } else if d == 7 {
        "7"
    } else if d == 8 {
        "8"
    } else {
        "9"
    };
    assert(s@ =~= seq![digit_char(d as nat)]);
    s
}

/// Writes a number in decimal digits.
pub fn decimal(n: u64) -> (s: String)
    ensures
        s@ == decimal_digits(n as nat),
    decreases n,
{
    if n < 10 {
        String::from_str(digit(n))
    } else {
        let head = decimal(n / 10);
        let s = head.concat(digit(n % 10));
        assert(s@ =~= decimal_digits(n as nat));
        s
    }
}

/// Puts `middle` between two fixed pieces of text.
fn framed(before: &str, middle: &str, after: &str) -> (s: String)
    ensures
        s@ == before@ + middle@ + after@,
{
    String::from_str(before).concat(middle).concat(after)
}

pub fn proximity_reason(source: &String) -> (s: String)
    ensures
        s@ == proximity_text(source@),
{
    framed("Infected by proximity to <@", source.as_str(), ">")
}

pub fn threshold_reason(threshold: u32) -> (s: String)
    ensures
        s@ == threshold_text(threshold),
{
    let digits = decimal(threshold as u64);
    framed("Sent ", digits.as_str(), " messages while infected")
}

pub fn timeout_reason(timeout: u64) -> (s: String)
    ensures
        s@ == timeout_text(timeout),
{
    let digits = decimal(timeout);
    framed("Was infected for more than ", digits.as_str(), " seconds")
}

pub fn manual_infection_reason(by: &String) -> (s: String)
    ensures
        s@ == manual_infection_text(by@),
{
    framed("Manually infected by <@", by.as_str(), ">")
}

pub fn manual_cure_reason(by: &String) -> (s: String)
    ensures
        s@ == manual_cure_text(by@),
{
    framed("Manually cured by <@", by.as_str(), ">")
}

} // verus!
