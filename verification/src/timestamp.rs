//! Calendar timestamps as plain values, and their fixed-width rendering
//! `DD_MM_YYYY_HH_MM_SS` used in the default name of the merged file.
//! Only reading the clock is delegated to the `chrono` crate.

use chrono::Datelike;
use chrono::Timelike;
use vstd::prelude::*;
use vstd::string::StringExecFns;

verus! {

/// A local calendar time, split into plain fields.
pub struct Timestamp {
    pub year: u16,
    pub month: u8,
    pub day: u8,
    pub hour: u8,
    pub minute: u8,
    pub second: u8,
}

impl Timestamp {
    /// Field ranges under which the fixed-width rendering is defined.
    pub open spec fn wf(&self) -> bool {
        &&& self.year <= 9999
        &&& 1 <= self.month <= 12
        &&& 1 <= self.day <= 31
        &&& self.hour < 24
        &&& self.minute < 60
        &&& self.second < 60
    }

    /// Builds a timestamp from raw clock fields; `None` exactly when a
    /// field is outside the ranges of [`Timestamp::wf`].
    pub fn new(year: i32, month: u32, day: u32, hour: u32, minute: u32, second: u32) -> (r: Option<
        Timestamp,
    >)
        ensures
            match r {
                Some(ts) => ts.wf() && ts.year == year && ts.month == month && ts.day == day
                    && ts.hour == hour && ts.minute == minute && ts.second == second,
                None => !(0 <= year <= 9999 && 1 <= month <= 12 && 1 <= day <= 31 && hour < 24
                    && minute < 60 && second < 60),
            },
    {
        if 0 <= year && year <= 9999 && 1 <= month && month <= 12 && 1 <= day && day <= 31
            && hour < 24 && minute < 60 && second < 60 {
            Some(
                Timestamp {
                    year: year as u16,
                    month: month as u8,
                    day: day as u8,
                    hour: hour as u8,
                    minute: minute as u8,
                    second: second as u8,
                },
            )
        } else {
            None
        }
    }
}

/// The decimal digit character for `d` (meaningful for `0 <= d <= 9`).
pub open spec fn digit_char(d: int) -> char {
    if d == 0 {
        '0'
    } else if d == 1 {
        '1'
    } else if d == 2 {
        '2'
    } else if d == 3 {
        '3'
    } else if d == 4 {
        '4'
    } else if d == 5 {
        '5'
    } else if d == 6 {
        '6'
    } else if d == 7 {
        '7'
    } else if d == 8 {
        '8'
    } else {
        '9'
    }
}

/// `n` rendered as exactly two decimal digits, zero-padded.
pub open spec fn two_digits(n: int) -> Seq<char> {
    seq![digit_char(n / 10), digit_char(n % 10)]
}

/// `n` rendered as exactly four decimal digits, zero-padded.
pub open spec fn four_digits(n: int) -> Seq<char> {
    seq![
        digit_char(n / 1000),
        digit_char((n / 100) % 10),
        digit_char((n / 10) % 10),
        digit_char(n % 10),
    ]
}

/// The fixed-width rendering `DD_MM_YYYY_HH_MM_SS` of a timestamp.
pub open spec fn spec_format_timestamp(ts: Timestamp) -> Seq<char> {
    two_digits(ts.day as int) + seq!['_'] + two_digits(ts.month as int) + seq!['_'] + four_digits(
        ts.year as int,
    ) + seq!['_'] + two_digits(ts.hour as int) + seq!['_'] + two_digits(ts.minute as int)
        + seq!['_'] + two_digits(ts.second as int)
}

/// Whether `c` is a decimal digit character.
pub open spec fn is_digit(c: char) -> bool {
    '0' <= c <= '9'
}

/// The single-character string for digit `d`.
fn digit_str(d: u8) -> (r: &'static str)
    requires
        d < 10,
    ensures
        r@ =~= seq![digit_char(d as int)],
{
    proof {
        reveal_strlit("0");
        reveal_strlit("1");
        reveal_strlit("2");
        reveal_strlit("3");
        reveal_strlit("4");
        reveal_strlit("5");
        reveal_strlit("6");
        reveal_strlit("7");
        reveal_strlit("8");
        reveal_strlit("9");
    }
    match d {
        0 => "0",
        1 => "1",
        2 => "2",
        3 => "3",
        4 => "4",
        5 => "5",
        6 => "6",
        7 => "7",
        8 => "8",
        _ => "9",
    }
}

/// Appends the two-digit zero-padded rendering of `n`.
fn push_two_digits(out: &mut String, n: u8)
    requires
        n < 100,
    ensures
        final(out)@ == old(out)@ + two_digits(n as int),
{
    let ghost pre = out@;
    out.append(digit_str(n / 10));
    out.append(digit_str(n % 10));
    proof {
        assert(out@ =~= pre + two_digits(n as int));
    }
}

/// Appends the four-digit zero-padded rendering of `n`.
fn push_four_digits(out: &mut String, n: u16)
    requires
        n < 10000,
    ensures
        final(out)@ == old(out)@ + four_digits(n as int),
{
    let ghost pre = out@;
    out.append(digit_str((n / 1000) as u8));
    out.append(digit_str(((n / 100) % 10) as u8));
    out.append(digit_str(((n / 10) % 10) as u8));
    out.append(digit_str((n % 10) as u8));
    proof {
        assert(out@ =~= pre + four_digits(n as int));
    }
}

/// Appends the underscore separator.
fn push_underscore(out: &mut String)
    ensures
        final(out)@ == old(out)@ + seq!['_'],
{
    let ghost pre = out@;
    out.append("_");
    proof {
        reveal_strlit("_");
        assert(out@ =~= pre + seq!['_']);
    }
}

/// Renders a timestamp as `DD_MM_YYYY_HH_MM_SS`, each field zero-padded
/// to fixed width.
pub fn format_timestamp(ts: &Timestamp) -> (r: String)
    requires
        ts.wf(),
    ensures
        r@ == spec_format_timestamp(*ts),
{
    let mut out = String::new();
    push_two_digits(&mut out, ts.day);
    push_underscore(&mut out);
    push_two_digits(&mut out, ts.month);
    push_underscore(&mut out);
    push_four_digits(&mut out, ts.year);
    push_underscore(&mut out);
    push_two_digits(&mut out, ts.hour);
    push_underscore(&mut out);
    push_two_digits(&mut out, ts.minute);
    push_underscore(&mut out);
    push_two_digits(&mut out, ts.second);
    proof {
        assert(out@ =~= spec_format_timestamp(*ts));
    }
    out
}

/// The rendering always has the shape `DD_MM_YYYY_HH_MM_SS`: nineteen
/// characters, underscores exactly at the five separator positions, and a
/// decimal digit everywhere else.
pub proof fn lemma_format_shape(ts: Timestamp)
    ensures
        spec_format_timestamp(ts).len() == 19,
        forall|i: int|
            0 <= i < 19 ==> ((spec_format_timestamp(ts)[i] == '_') <==> (i == 2 || i == 5 || i == 10
                || i == 13 || i == 16)),
        forall|i: int|
            0 <= i < 19 && !(i == 2 || i == 5 || i == 10 || i == 13 || i == 16) ==> is_digit(
                spec_format_timestamp(ts)[i],
            ),
{
    let s = spec_format_timestamp(ts);
    assert(s =~= seq![
        digit_char(ts.day as int / 10),
        digit_char(ts.day as int % 10),
        '_',
        digit_char(ts.month as int / 10),
        digit_char(ts.month as int % 10),
        '_',
        digit_char(ts.year as int / 1000),
        digit_char((ts.year as int / 100) % 10),
        digit_char((ts.year as int / 10) % 10),
        digit_char(ts.year as int % 10),
        '_',
        digit_char(ts.hour as int / 10),
        digit_char(ts.hour as int % 10),
        '_',
        digit_char(ts.minute as int / 10),
        digit_char(ts.minute as int % 10),
        '_',
        digit_char(ts.second as int / 10),
        digit_char(ts.second as int % 10),
    ]);
}

/// Relies on `chrono::Local::now` and chrono's `Datelike`/`Timelike`
/// accessors for the current local time: chrono documents `month` in
/// 1..=12, `day` in 1..=31, `hour` below 24, and `minute` and `second`
/// below 60; the year is returned as chrono gives it.
#[verifier::external_body]
fn clock_now_parts() -> (r: (i32, u32, u32, u32, u32, u32))
    ensures
        1 <= r.1 <= 12,
        1 <= r.2 <= 31,
        r.3 < 24,
        r.4 < 60,
        r.5 < 60,
{
    let now = chrono::Local::now();
    (now.year(), now.month(), now.day(), now.hour(), now.minute(), now.second())
}

/// The current local time as a timestamp; `None` only if the clock
/// reports a year that four digits cannot render.
pub fn local_timestamp() -> (r: Option<Timestamp>)
    ensures
        r matches Some(ts) ==> ts.wf(),
{
    let (year, month, day, hour, minute, second) = clock_now_parts();
    Timestamp::new(year, month, day, hour, minute, second)
}

} // verus!
