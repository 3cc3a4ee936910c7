//! Durations as short texts such as `10s`, `500ms`, `2m`, `1h`.

use crate::text::{decimal, decimal_text};
use vstd::prelude::*;
use vstd::string::StrSliceExecFns;

verus! {

/// Whether a character is alphabetic, as `char::is_alphabetic` has it.
pub uninterp spec fn alphabetic(c: char) -> bool;

/// `char::is_alphabetic`. Believed, not proved: the answer depends on the
/// character alone.
#[verifier::external_body]
fn is_alphabetic(c: char) -> (b: bool)
    ensures
        b == alphabetic(c),
{
    c.is_alphabetic()
}

/// The text of a duration of `secs` whole seconds and `millis`
/// milliseconds on top. Below a second the milliseconds are given; below a
/// minute the seconds, with tenths where there are milliseconds; below an
/// hour the whole minutes; else the whole hours.
pub open spec fn duration_text(secs: u64, millis: u32) -> Seq<char> {
    if secs == 0 {
        decimal_text(millis as nat) + "ms"@
    } else if secs < 60 {
        if millis == 0 {
            decimal_text(secs as nat) + "s"@
        } else {
            decimal_text(secs as nat) + "."@ + decimal_text((millis / 100) as nat) + "s"@
        }
    } else if secs < 3600 {
        decimal_text((secs / 60) as nat) + "m"@
    } else {
        decimal_text((secs / 3600) as nat) + "h"@
    }
}

/// Formats a duration, given as its whole seconds and the milliseconds
/// on top, as a short text.
pub fn format_duration(total_secs: u64, millis: u32) -> (out: String)
    ensures
        out@ == duration_text(total_secs, millis),
{
    if total_secs == 0 {
        let mut out = decimal(millis as u64);
        out.append("ms");
        out
    } else if total_secs < 60 {
        if millis == 0 {
            let mut out = decimal(total_secs);
            out.append("s");
            out
        } else {
            let mut out = decimal(total_secs);
            out.append(".");
            let tenths = decimal((millis / 100) as u64);
            out.append(tenths.as_str());
            out.append("s");
            out
        }
    } else if total_secs < 3600 {
        let mut out = decimal(total_secs / 60);
        out.append("m");
        out
    } else {
        let mut out = decimal(total_secs / 3600);
        out.append("h");
        out
    }
}

/// The number of characters before the first alphabetic one.
pub open spec fn numeric_prefix_len(s: Seq<char>) -> nat
    decreases s.len(),
{
    if s.len() == 0 || alphabetic(s[0]) {
        0
    } else {
        1 + numeric_prefix_len(s.drop_first())
    }
}

/// Splits a duration text into its number and its unit: the unit starts
/// at the first alphabetic character. A text that starts with its unit,
/// or is empty, has no number.
pub fn split_duration_string(s: &str) -> (r: Result<(&str, &str), String>)
    ensures
        match r {
            Ok((number, unit)) => numeric_prefix_len(s@) > 0 && number@ == s@.take(
                numeric_prefix_len(s@) as int,
            ) && unit@ == s@.skip(numeric_prefix_len(s@) as int),
            Err(e) => numeric_prefix_len(s@) == 0 && e@ == "No numeric value found"@,
        },
{
    let n: usize = s.unicode_len();
    let mut boundary: usize = 0;
    let mut found: bool = false;
    assert(s@.skip(0) =~= s@);
    while boundary < n && !found
        invariant
            boundary <= n,
            n == s@.len(),
            numeric_prefix_len(s@) == boundary + numeric_prefix_len(s@.skip(boundary as int)),
            found ==> boundary < n && alphabetic(s@[boundary as int]),
        decreases n - boundary + (if found { 0int } else { 1int }),
    {
        let c = s.get_char(boundary);
        let ghost rest = s@.skip(boundary as int);
        if is_alphabetic(c) {
            found = true;
        } else {
            assert(rest.drop_first() =~= s@.skip(boundary + 1));
            boundary = boundary + 1;
        }
    }
    if boundary == 0 {
        return Err("No numeric value found".to_string());
    }
    let number = s.substring_char(0, boundary);
    let unit = s.substring_char(boundary, n);
    Ok((number, unit))
}

/// The unit of a duration text.
#[derive(Debug, Clone, Copy, PartialEq, Eq, Structural)]
pub enum DurationUnit {
    Millis,
    Seconds,
    Minutes,
    Hours,
}

/// The unit that a unit text names. No text at all means seconds.
pub open spec fn unit_named(text: Seq<char>) -> Option<DurationUnit> {
    if text == "ms"@ {
        Some(DurationUnit::Millis)
    } else if text == "s"@ || text == ""@ {
        Some(DurationUnit::Seconds)
    } else if text == "m"@ {
        Some(DurationUnit::Minutes)
    } else if text == "h"@ {
        Some(DurationUnit::Hours)
    } else {
        None
    }
}

/// Reads a unit text.
pub fn unit_of(text: &str) -> (unit: Option<DurationUnit>)
    ensures
        unit == unit_named(text@),
{
    let t = text.to_string();
    if t == "ms".to_string() {
        Some(DurationUnit::Millis)
    } else if t == "s".to_string() || t == "".to_string() {
        Some(DurationUnit::Seconds)
    } else if t == "m".to_string() {
        Some(DurationUnit::Minutes)
    } else if t == "h".to_string() {
        Some(DurationUnit::Hours)
    } else {
        None
    }
}

/// The milliseconds in one unit.
pub fn unit_millis(unit: DurationUnit) -> (ms: u64)
    ensures
        ms == match unit {
            DurationUnit::Millis => 1u64,
            DurationUnit::Seconds => 1000u64,
            DurationUnit::Minutes => 60_000u64,
            DurationUnit::Hours => 3_600_000u64,
        },
{
    match unit {
        DurationUnit::Millis => 1,
        DurationUnit::Seconds => 1000,
        DurationUnit::Minutes => 60_000,
        DurationUnit::Hours => 3_600_000,
    }
}

} // verus!
