//! Numbers and spans of time as text.

use vstd::prelude::*;
use vstd::string::*;

verus! {

/// The character for a decimal digit.
pub open spec fn digit_char(d: nat) -> char {
    if d == 0 {
        '0'
    } else if d == 1 {
        '1'
    } else if d == 2 {
        '2'
    } else if d == 3 {
        '3'
    } else if d == 4 {
        '4'
    } else if d == 5 {
        '5'
    } else if d == 6 {
        '6'
    } else if d == 7 {
        '7'
    } else if d == 8 {
        '8'
    } else {
        '9'
    }
}

/// A number in decimal, without sign or leading zeros.
pub open spec fn decimal(n: nat) -> Seq<char>
    decreases n,
{
    if n < 10 {
        seq![digit_char(n)]
    } else {
        decimal(n / 10).push(digit_char(n % 10))
    }
}

/// A number of seconds as the display writes it: seconds alone below a
/// minute, then minutes, hours and days in front as they are reached.
pub open spec fn clock_text(secs: nat) -> Seq<char> {
    let s = decimal(secs % 60) + seq!['s'];
    let m = decimal((secs % 3600) / 60) + seq!['m', ' '];
    if secs < 60 {
        s
    } else if secs < 3600 {
        m + s
    } else if secs < 86400 {
        decimal(secs / 3600) + seq!['h', ' '] + m + s
    } else {
        decimal(secs / 86400) + seq!['d', ' '] + decimal((secs % 86400) / 3600) + seq!['h', ' ']
            + m + s
    }
}

fn digit_str(d: u64) -> (s: &'static str)
    requires
        d < 10,
    ensures
        s@ == seq![digit_char(d as nat)],
{
    proof {
        reveal_strlit("0");
        reveal_strlit("1");
        reveal_strlit("2");
        reveal_strlit("3");
        reveal_strlit("4");
        reveal_strlit("5");
        reveal_strlit("6");
        reveal_strlit("7");
        reveal_strlit("8");
        reveal_strlit("9");
    }
    let s = if d == 0 {
        "0"
    } else if d == 1 {
        "1"
    } else if d == 2 {
        "2"
    } else if d == 3 {
        "3"
    } else if d == 4 {
        "4"
    } else if d == 5 {
        "5"
    } else if d == 6 {
        "6"
    } else if d == 7 {
        "7"
    } else if d == 8 {
        "8"
    } else {
        "9"
    };
    s
}

/// Appends `n` in decimal.
pub fn push_decimal(out: &mut String, n: u64)
    ensures
        final(out)@ == old(out)@ + decimal(n as nat),
    decreases n,
{
    if n >= 10 {
        push_decimal(out, n / 10);
    }
    out.append(digit_str(n % 10));
}

/// Appends `n` in decimal and then `unit`.
fn push_part(out: &mut String, n: u64, unit: &str)
    ensures
        final(out)@ == old(out)@ + decimal(n as nat) + unit@,
{
    push_decimal(out, n);
    out.append(unit);
}

/// A number of seconds as the display writes it.
pub fn clock_string(secs: u64) -> (text: String)
    ensures
        text@ == clock_text(secs as nat),
{
    proof {
        reveal_strlit("s");
        reveal_strlit("m ");
        reveal_strlit("h ");
        reveal_strlit("d ");
    }
    let mut text = String::new();
    if secs >= 86400 {
        push_part(&mut text, secs / 86400, "d ");
        push_part(&mut text, (secs % 86400) / 3600, "h ");
        push_part(&mut text, (secs % 3600) / 60, "m ");
    } else if secs >= 3600 {
        push_part(&mut text, secs / 3600, "h ");
        push_part(&mut text, (secs % 3600) / 60, "m ");
    } else if secs >= 60 {
        push_part(&mut text, (secs % 3600) / 60, "m ");
    }
    push_part(&mut text, secs % 60, "s");
    text
}

} // verus!
