use vstd::prelude::*;

use crate::time::Duration;

verus! {

/// The decimal digit character for `d`.
pub open spec fn digit_char(d: nat) -> char
    recommends
        d < 10,
{
    if d == 0 {
        '0'
    } else if d == 1 {
        '1'
    } else if d == 2 {
        '2'
    } else if d == 3 {
        '3'
    } else if d == 4 {
        '4'
    } else if d == 5 {
        '5'
    } else if d == 6 {
        '6'
    } else if d == 7 {
        '7'
    } else if d == 8 {
        '8'
    } else {
        '9'
    }
}

/// The decimal rendering of `n`, without leading zeros.
pub open spec fn dec_text(n: nat) -> Seq<char>
    decreases n,
{
    if n < 10 {
        seq![digit_char(n)]
    } else {
        dec_text(n / 10).push(digit_char(n % 10))
    }
}

/// The decimal rendering of `i`, with a leading minus sign when negative.
pub open spec fn int_text(i: int) -> Seq<char> {
    if i < 0 {
        seq!['-'] + dec_text((-i) as nat)
    } else {
        dec_text(i as nat)
    }
}

/// The decimal rendering of `n`, zero-padded to at least two digits.
pub open spec fn pad2_text(n: nat) -> Seq<char> {
    if n < 10 {
        seq!['0', digit_char(n)]
    } else {
        dec_text(n)
    }
}

/// The decimal rendering of `n`, zero-padded to three digits.
pub open spec fn pad3_text(n: nat) -> Seq<char>
    recommends
        n < 1000,
{
    if n < 10 {
        seq!['0', '0', digit_char(n)]
    } else if n < 100 {
        seq!['0'] + dec_text(n)
    } else {
        dec_text(n)
    }
}

/// A span of `ms` milliseconds rendered as `HH:MM:SS.mmm`: hours, minutes and
/// seconds by truncating division, the sub-second remainder kept as-is.
pub open spec fn duration_text(ms: int) -> Seq<char>
    recommends
        ms >= 0,
{
    let s = ms / 1000;
    pad2_text((s / 3600) as nat) + seq![':'] + pad2_text(((s % 3600) / 60) as nat) + seq![':']
        + pad2_text((s % 60) as nat) + seq!['.'] + pad3_text((ms % 1000) as nat)
}

fn digit_str(d: u64) -> (r: &'static str)
    requires
        d < 10,
    ensures
        r@ == seq![digit_char(d as nat)],
{
    proof {
        reveal_strlit("0");
        reveal_strlit("1");
        reveal_strlit("2");
        reveal_strlit("3");
        reveal_strlit("4");
        reveal_strlit("5");
        reveal_strlit("6");
        reveal_strlit("7");
        reveal_strlit("8");
        reveal_strlit("9");
    }
    match d {
        0 => "0",
        1 => "1",
        2 => "2",
        3 => "3",
        4 => "4",
        5 => "5",
        6 => "6",
        7 => "7",
        8 => "8",
        _ => "9",
    }
}

/// The decimal digits of `n`.
pub fn u64_dec(n: u64) -> (r: String)
    ensures
        r@ == dec_text(n as nat),
    decreases n,
{
    if n < 10 {
        digit_str(n).to_owned()
    } else {
        let mut s = u64_dec(n / 10);
        s.append(digit_str(n % 10));
        s
    }
}

/// The decimal rendering of `n`, minus sign included when negative.
pub fn i64_dec(n: i64) -> (r: String)
    ensures
        r@ == int_text(n as int),
{
    if n >= 0 {
        u64_dec(n as u64)
    } else {
        let mag: u64 = ((-(n + 1)) as u64) + 1;
        proof {
            reveal_strlit("-");
        }
        let mut s = "-".to_owned();
        let digits = u64_dec(mag);
        s.append(digits.as_str());
        s
    }
}

fn pad2(n: u64) -> (r: String)
    ensures
        r@ == pad2_text(n as nat),
{
    if n < 10 {
        proof {
            reveal_strlit("0");
        }
        let mut s = "0".to_owned();
        s.append(digit_str(n));
        s
    } else {
        u64_dec(n)
    }
}

fn pad3(n: u64) -> (r: String)
    requires
        n < 1000,
    ensures
        r@ == pad3_text(n as nat),
{
    proof {
        reveal_strlit("0");
        reveal_strlit("00");
    }
    if n < 10 {
        let mut s = "00".to_owned();
        s.append(digit_str(n));
        s
    } else if n < 100 {
        let mut s = "0".to_owned();
        let digits = u64_dec(n);
        s.append(digits.as_str());
        s
    } else {
        u64_dec(n)
    }
}

/// Renders an elapsed span as `HH:MM:SS.mmm`.
pub fn format_duration(d: &Duration) -> (r: String)
    requires
        d.wf(),
    ensures
        r@ == duration_text(d@),
{
    proof {
        reveal_strlit(":");
        reveal_strlit(".");
        vstd::arithmetic::div_mod::lemma_fundamental_div_mod_converse(
            d@,
            1000,
            d.secs as int,
            d.millis as int,
        );
    }
    let hours = d.secs / 3600;
    let minutes = (d.secs % 3600) / 60;
    let seconds = d.secs % 60;
    let mut s = pad2(hours);
    s.append(":");
    let m = pad2(minutes);
    s.append(m.as_str());
    s.append(":");
    let sec = pad2(seconds);
    s.append(sec.as_str());
    s.append(".");
    let ms = pad3(d.millis as u64);
    s.append(ms.as_str());
    s
}

} // verus!
