//! Decimal rendering of integers and `h:m:s`-style timestamps.
use vstd::prelude::*;
use vstd::string::StringExecFns;

verus! {

/// The character of decimal digit `d`.
pub open spec fn digit_char(d: nat) -> char {
    seq!['0', '1', '2', '3', '4', '5', '6', '7', '8', '9'][d as int]
}

/// `n` written in decimal, without leading zeros.
pub open spec fn decimal(n: nat) -> Seq<char>
    decreases n,
{
    if n < 10 {
        seq![digit_char(n)]
    } else {
        decimal(n / 10) + seq![digit_char(n % 10)]
    }
}

/// A timestamp of `secs` seconds: hours, minutes and seconds joined by `:`,
/// where the hours and the minutes are left out when they are zero. No part
/// is padded.
pub open spec fn timestamp(secs: nat) -> Seq<char> {
    let h = secs / 3600;
    let m = (secs % 3600) / 60;
    let s = secs % 60;
    (if h > 0 { decimal(h) + seq![':'] } else { Seq::empty() })
        + (if m > 0 { decimal(m) + seq![':'] } else { Seq::empty() })
        + decimal(s)
}

fn digit_str(d: u64) -> (r: &'static str)
    requires
        d < 10,
    ensures
        r@ == seq![digit_char(d as nat)],
{
    proof {
        reveal_strlit("0");
        reveal_strlit("1");
        reveal_strlit("2");
        reveal_strlit("3");
        reveal_strlit("4");
        reveal_strlit("5");
        reveal_strlit("6");
        reveal_strlit("7");
        reveal_strlit("8");
        reveal_strlit("9");
    }
    let r = match d {
        0 => "0",
        1 => "1",
        2 => "2",
        3 => "3",
        4 => "4",
        5 => "5",
        6 => "6",
        7 => "7",
        8 => "8",
        _ => "9",
    };
    assert(r@ =~= seq![digit_char(d as nat)]);
    r
}

/// Appends `n` in decimal to `out`.
pub fn push_decimal(out: &mut String, n: u64)
    ensures
        final(out)@ == old(out)@ + decimal(n as nat),
    decreases n,
{
    if n >= 10 {
        push_decimal(out, n / 10);
    }
    out.append(digit_str(n % 10));
    assert(final(out)@ =~= old(out)@ + decimal(n as nat));
}

/// `n` in decimal.
pub fn to_decimal(n: u64) -> (r: String)
    ensures
        r@ == decimal(n as nat),
{
    let mut s = String::new();
    push_decimal(&mut s, n);
    assert(s@ =~= decimal(n as nat));
    s
}

/// Renders a duration in seconds as `h:m:s`, leaving out zero hours and zero
/// minutes (`75` gives `1:15`, `3605` gives `1:5`).
pub fn seconds_to_timestamp(seconds: u32) -> (r: String)
    ensures
        r@ == timestamp(seconds as nat),
{
    proof {
        reveal_strlit(":");
    }
    let mut out = String::new();
    let hours = seconds / 3600;
    if hours > 0 {
        push_decimal(&mut out, hours as u64);
        out.append(":");
    }
    let minutes = (seconds % 3600) / 60;
    if minutes > 0 {
        push_decimal(&mut out, minutes as u64);
        out.append(":");
    }
    push_decimal(&mut out, (seconds % 60) as u64);
    assert(out@ =~= timestamp(seconds as nat));
    out
}

} // verus!
