//! Verified text rendering: decimal numbers, timestamps in the
//! `HH:MM:SS.mmm` form the external trim tool takes (decimal point, not the
//! comma of the cue source format), output file paths and progress lines.

use vstd::prelude::*;
use crate::timestamp::Timestamp;
use crate::timestamp::MAX_TIMESTAMP_MILLIS;

verus! {

/// The decimal digit character for `d`.
pub open spec fn digit_char(d: int) -> char {
    if d == 0 {
        '0'
    } else if d == 1 {
        '1'
    } else if d == 2 {
        '2'
    } else if d == 3 {
        '3'
    } else if d == 4 {
        '4'
    } else if d == 5 {
        '5'
    } else if d == 6 {
        '6'
    } else if d == 7 {
        '7'
    } else if d == 8 {
        '8'
    } else {
        '9'
    }
}

/// The decimal digits of `n`, most significant first, without leading zeros
/// (a single `'0'` for zero itself).
pub open spec fn decimal_chars(n: int) -> Seq<char>
    decreases n,
{
    if n < 10 {
        seq![digit_char(n)]
    } else {
        decimal_chars(n / 10).push(digit_char(n % 10))
    }
}

/// The decimal digits of `n`, left-padded with `'0'` to at least two places.
pub open spec fn padded2_chars(n: int) -> Seq<char> {
    if n < 10 {
        seq!['0'] + decimal_chars(n)
    } else {
        decimal_chars(n)
    }
}

/// The decimal digits of `n`, left-padded with `'0'` to at least three places.
pub open spec fn padded3_chars(n: int) -> Seq<char> {
    if n < 10 {
        seq!['0', '0'] + decimal_chars(n)
    } else if n < 100 {
        seq!['0'] + decimal_chars(n)
    } else {
        decimal_chars(n)
    }
}

/// The text of the timestamp `m` milliseconds past the recording's start:
/// two-digit-padded hours, minutes and seconds separated by `':'`, then a
/// decimal point and the three-digit-padded milliseconds.
pub open spec fn timestamp_chars(m: int) -> Seq<char> {
    padded2_chars(m / 3600000) + seq![':'] + padded2_chars((m / 60000) % 60) + seq![':']
        + padded2_chars((m / 1000) % 60) + seq!['.'] + padded3_chars(m % 1000)
}

/// The output path for clip number `n`: `{dir}/{prefix}-{n}.mp3`.
pub open spec fn clip_path_chars(dir: Seq<char>, prefix: Seq<char>, n: int) -> Seq<char> {
    dir + seq!['/'] + prefix + seq!['-'] + decimal_chars(n) + ".mp3"@
}

/// The cumulative progress message: `{completed}/{total} completed!\n`.
pub open spec fn progress_chars(completed: int, total: int) -> Seq<char> {
    decimal_chars(completed) + seq!['/'] + decimal_chars(total) + " completed!\n"@
}

/// The character sequences of a list of strings.
pub open spec fn str_views(v: Seq<String>) -> Seq<Seq<char>> {
    v.map_values(|s: String| s@)
}

/// The one-character string for the decimal digit `d`.
fn digit_str(d: u64) -> (r: &'static str)
    requires
        d < 10,
    ensures
        r@ == seq![digit_char(d as int)],
{
    proof {
        reveal_strlit("0");
        reveal_strlit("1");
        reveal_strlit("2");
        reveal_strlit("3");
        reveal_strlit("4");
        reveal_strlit("5");
        reveal_strlit("6");
        reveal_strlit("7");
        reveal_strlit("8");
        reveal_strlit("9");
    }
    let r: &'static str = match d {
        0 => "0",
        1 => "1",
        2 => "2",
        3 => "3",
        4 => "4",
        5 => "5",
        6 => "6",
        7 => "7",
        8 => "8",
        _ => "9",
    };
    proof {
        assert(r@ =~= seq![digit_char(d as int)]);
    }
    r
}

/// Appends the decimal digits of `n` to `out`.
pub fn push_decimal(out: &mut String, n: u64)
    ensures
        final(out)@ == old(out)@ + decimal_chars(n as int),
    decreases n,
{
    if n >= 10 {
        push_decimal(out, n / 10);
    }
    out.append(digit_str(n % 10));
    proof {
        assert(final(out)@ =~= old(out)@ + decimal_chars(n as int));
    }
}

/// Appends the decimal digits of `n`, left-padded to two places, to `out`.
fn push_padded2(out: &mut String, n: u64)
    ensures
        final(out)@ == old(out)@ + padded2_chars(n as int),
{
    if n < 10 {
        proof {
            reveal_strlit("0");
        }
        out.append("0");
    }
    push_decimal(out, n);
    proof {
        assert(final(out)@ =~= old(out)@ + padded2_chars(n as int));
    }
}

/// Appends the decimal digits of `n`, left-padded to three places, to `out`.
fn push_padded3(out: &mut String, n: u64)
    ensures
        final(out)@ == old(out)@ + padded3_chars(n as int),
{
    if n < 10 {
        proof {
            reveal_strlit("00");
        }
        out.append("00");
    } else if n < 100 {
        proof {
            reveal_strlit("0");
        }
        out.append("0");
    }
    push_decimal(out, n);
    proof {
        assert(final(out)@ =~= old(out)@ + padded3_chars(n as int));
    }
}

/// The decimal text of `n`.
pub fn decimal_string(n: u64) -> (r: String)
    ensures
        r@ == decimal_chars(n as int),
{
    let mut out = String::new();
    push_decimal(&mut out, n);
    proof {
        assert(out@ =~= decimal_chars(n as int));
    }
    out
}

/// The text of a timestamp, as handed to the external trim tool.
pub fn timestamp_string(t: &Timestamp) -> (r: String)
    requires
        t.wf(),
    ensures
        r@ == timestamp_chars(t@),
{
    proof {
        reveal_strlit(":");
        reveal_strlit(".");
    }
    let m = t.millis();
    let mut out = String::new();
    push_padded2(&mut out, (m / 3600000) as u64);
    out.append(":");
    push_padded2(&mut out, ((m / 60000) % 60) as u64);
    out.append(":");
    push_padded2(&mut out, ((m / 1000) % 60) as u64);
    out.append(".");
    push_padded3(&mut out, (m % 1000) as u64);
    proof {
        assert(out@ =~= timestamp_chars(t@));
    }
    out
}

/// The output path for clip number `n`: `{dir}/{prefix}-{n}.mp3`.
pub fn clip_path(dir: &str, prefix: &str, n: u64) -> (r: String)
    ensures
        r@ == clip_path_chars(dir@, prefix@, n as int),
{
    proof {
        reveal_strlit("/");
        reveal_strlit("-");
        reveal_strlit(".mp3");
    }
    let mut out = String::from_str(dir);
    out.append("/");
    out.append(prefix);
    out.append("-");
    push_decimal(&mut out, n);
    out.append(".mp3");
    proof {
        assert(out@ =~= clip_path_chars(dir@, prefix@, n as int));
    }
    out
}

/// The cumulative progress message: `{completed}/{total} completed!\n`.
pub fn progress_line(completed: usize, total: usize) -> (r: String)
    ensures
        r@ == progress_chars(completed as int, total as int),
{
    proof {
        reveal_strlit("/");
        reveal_strlit(" completed!\n");
    }
    let mut out = String::new();
    push_decimal(&mut out, completed as u64);
    out.append("/");
    push_decimal(&mut out, total as u64);
    out.append(" completed!\n");
    proof {
        assert(out@ =~= progress_chars(completed as int, total as int));
    }
    out
}

} // verus!
