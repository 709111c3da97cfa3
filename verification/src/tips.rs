//! The texts that the game shows and the names it gives to them.

use crate::state::Score;
use vstd::prelude::*;
use vstd::string::StringExecFns;

verus! {

/// The character of a decimal digit.
pub open spec fn digit(d: nat) -> char
    recommends
        d < 10,
{
    if d == 0 {
        '0'
    } else if d == 1 {
        '1'
    } else if d == 2 {
        '2'
    } else if d == 3 {
        '3'
    } else if d == 4 {
        '4'
    } else if d == 5 {
        '5'
    } else if d == 6 {
        '6'
    } else if d == 7 {
        '7'
    } else if d == 8 {
        '8'
    } else {
        '9'
    }
}

/// A number in decimal notation, without leading zeros.
pub open spec fn decimal(n: nat) -> Seq<char>
    decreases n,
{
    if n < 10 {
        seq![digit(n)]
    } else {
        decimal(n / 10).push(digit(n % 10))
    }
}

/// The text of the score display.
pub open spec fn score_line(score: Score) -> Seq<char> {
    "You collected "@ + decimal(score.0 as nat) + " coins."@
}

/// The name of the entity that shows a tip.
pub open spec fn tip_label(text: Seq<char>) -> Seq<char> {
    "Tip: "@ + text
}

fn digit_str(d: u32) -> (s: &'static str)
    requires
        d < 10,
    ensures
        s@ == seq![digit(d as nat)],
{
    proof {
        reveal_strlit("0");
        reveal_strlit("1");
        reveal_strlit("2");
        reveal_strlit("3");
        reveal_strlit("4");
        reveal_strlit("5");
        reveal_strlit("6");
        reveal_strlit("7");
        reveal_strlit("8");
        reveal_strlit("9");
    }
    let s = match d {
        0 => "0",
        1 => "1",
        2 => "2",
        3 => "3",
        4 => "4",
        5 => "5",
        6 => "6",
        7 => "7",
        8 => "8",
        _ => "9",
    };
    assert(s@ =~= seq![digit(d as nat)]);
    s
}

/// Writes a number in decimal notation.
pub fn decimal_string(n: u32) -> (s: String)
    ensures
        s@ == decimal(n as nat),
    decreases n,
{
    if n < 10 {
        String::from_str(digit_str(n))
    } else {
        let mut s = decimal_string(n / 10);
        s.append(digit_str(n % 10));
        assert(s@ =~= decimal(n as nat));
        s
    }
}

/// Writes the text of the score display, such as `You collected 3 coins.`
pub fn update_score_text(score: Score) -> (text: String)
    ensures
        text@ == score_line(score),
{
    let mut text = String::from_str("You collected ");
    let number = decimal_string(score.0);
    text.append(number.as_str());
    text.append(" coins.");
    text
}

/// Writes the name of the entity that shows the tip with the given text.
pub fn tip_name(text: &str) -> (name: String)
    ensures
        name@ == tip_label(text@),
{
    let mut name = String::from_str("Tip: ");
    name.append(text);
    name
}

} // verus!
