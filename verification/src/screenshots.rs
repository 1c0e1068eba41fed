//! Numbered screenshots: which file a key press asks for.

use vstd::prelude::*;
use vstd::string::StringExecFns;

verus! {

/// The character of one decimal digit.
pub open spec fn digit_char(digit: nat) -> char {
    if digit == 0 {
        '0'
    } else if digit == 1 {
        '1'
    } else if digit == 2 {
        '2'
    } else if digit == 3 {
        '3'
    } else if digit == 4 {
        '4'
    } else if digit == 5 {
        '5'
    } else if digit == 6 {
        '6'
    } else if digit == 7 {
        '7'
    } else if digit == 8 {
        '8'
    } else {
        '9'
    }
}

/// A number in decimal digits, without leading zeros.
pub open spec fn decimal(n: nat) -> Seq<char>
    decreases n,
{
    if n < 10 {
        seq![digit_char(n)]
    } else {
        decimal(n / 10).push(digit_char(n % 10))
    }
}

/// The file that screenshot number `index` is saved to.
pub open spec fn screenshot_path(index: u32) -> Seq<char> {
    "./screenshot-"@ + decimal(index as nat) + ".png"@
}

/// One decimal digit as a string.
fn digit_str(digit: u32) -> (r: &'static str)
    requires
        digit < 10,
    ensures
        r@ == seq![digit_char(digit as nat)],
{
    proof {
        reveal_strlit("0");
        reveal_strlit("1");
        reveal_strlit("2");
        reveal_strlit("3");
        reveal_strlit("4");
        reveal_strlit("5");
        reveal_strlit("6");
        reveal_strlit("7");
        reveal_strlit("8");
        reveal_strlit("9");
    }
    let r = if digit == 0 {
        "0"
    } else if digit == 1 {
        "1"
    } else if digit == 2 {
        "2"
    } else if digit == 3 {
        "3"
    } else if digit == 4 {
        "4"
    } else if digit == 5 {
        "5"
    } else if digit == 6 {
        "6"
    } else if digit == 7 {
        "7"
    } else if digit == 8 {
        "8"
    } else {
        "9"
    };
    assert(r@ =~= seq![digit_char(digit as nat)]);
    r
}

/// A number in decimal digits.
fn decimal_string(n: u32) -> (r: String)
    ensures
        r@ == decimal(n as nat),
    decreases n,
{
    if n < 10 {
        String::from_str(digit_str(n))
    } else {
        let mut digits = decimal_string(n / 10);
        digits.append(digit_str(n % 10));
        digits
    }
}

/// Decides what a frame does about screenshots. Where the key has just been
/// pressed, a screenshot is due: the result is the file to save it to,
/// numbered by `counter`, and `counter` moves on by one. Otherwise nothing
/// is due and `counter` stays.
pub fn screenshot_on_spacebar(just_pressed: bool, counter: &mut u32) -> (r: Option<String>)
    requires
        just_pressed ==> *old(counter) < u32::MAX,
    ensures
        just_pressed ==> {
            &&& r matches Some(path)
            &&& path@ == screenshot_path(*old(counter))
            &&& *final(counter) == *old(counter) + 1
        },
        !just_pressed ==> r is None && *final(counter) == *old(counter),
{
    if just_pressed {
        let mut path = String::from_str("./screenshot-");
        let digits = decimal_string(*counter);
        path.append(digits.as_str());
        path.append(".png");
        *counter = *counter + 1;
        Some(path)
    } else {
        None
    }
}

} // verus!
