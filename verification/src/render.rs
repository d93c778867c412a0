//! Rendering of the countdown sentence: decimal numbers, singular or plural
//! unit words chosen by exact equality to one, and the fixed sentence shape
//! `Next price update in {blocks} blocks, or {hours} {hour|hours} and
//! {minutes} {minute|minutes}`.

use vstd::prelude::*;
use vstd::string::StringExecFns;
use crate::countdown::Countdown;

verus! {

/// The one-character text of a decimal digit.
pub open spec fn spec_digit(d: int) -> Seq<char> {
    if d == 0 {
        "0"@
    } else if d == 1 {
        "1"@
    } else if d == 2 {
        "2"@
    } else if d == 3 {
        "3"@
    } else if d == 4 {
        "4"@
    } else if d == 5 {
        "5"@
    } else if d == 6 {
        "6"@
    } else if d == 7 {
        "7"@
    } else if d == 8 {
        "8"@
    } else {
        "9"@
    }
}

/// The decimal text of a number: most significant digit first, no sign, no
/// leading zero except for zero itself.
pub open spec fn spec_decimal(n: nat) -> Seq<char>
    decreases n,
{
    if n < 10 {
        spec_digit(n as int)
    } else {
        spec_decimal(n / 10) + spec_digit((n % 10) as int)
    }
}

/// The text of one decimal digit.
fn digit_text(d: u64) -> (r: &'static str)
    requires
        d < 10,
    ensures
        r@ == spec_digit(d as int),
{
    if d == 0 {
        "0"
    } else if d == 1 {
        "1"
    } else if d == 2 {
        "2"
    } else if d == 3 {
        "3"
    } else if d == 4 {
        "4"
    } else if d == 5 {
        "5"
    } else if d == 6 {
        "6"
    } else if d == 7 {
        "7"
    } else if d == 8 {
        "8"
    } else {
        "9"
    }
}

/// Formats a number as decimal text.
pub fn format_u64(n: u64) -> (r: String)
    ensures
        r@ == spec_decimal(n as nat),
    decreases n,
{
    if n < 10 {
        String::from_str(digit_text(n))
    } else {
        let high = format_u64(n / 10);
        high.concat(digit_text(n % 10))
    }
}

/// The unit word for a count of hours: `"hour"` exactly at one, `"hours"`
/// for every other count.
pub open spec fn spec_hour_word(h: int) -> Seq<char> {
    if h == 1 {
        "hour"@
    } else {
        "hours"@
    }
}

/// The unit word for a count of minutes: `"minute"` exactly at one,
/// `"minutes"` for every other count.
pub open spec fn spec_minute_word(m: int) -> Seq<char> {
    if m == 1 {
        "minute"@
    } else {
        "minutes"@
    }
}

/// Selects the hour unit word, singular only at exactly one.
pub fn hour_word(h: u64) -> (r: &'static str)
    ensures
        r@ == spec_hour_word(h as int),
{
    if h == 1 {
        "hour"
    } else {
        "hours"
    }
}

/// Selects the minute unit word, singular only at exactly one.
pub fn minute_word(m: u64) -> (r: &'static str)
    ensures
        r@ == spec_minute_word(m as int),
{
    if m == 1 {
        "minute"
    } else {
        "minutes"
    }
}

/// The countdown sentence for a computed countdown.
pub open spec fn spec_render_countdown(c: Countdown) -> Seq<char> {
    "Next price update in "@ + spec_decimal(c.blocks_remaining as nat) + " blocks, or "@
        + spec_decimal(c.hours as nat) + " "@ + spec_hour_word(c.hours as int) + " and "@
        + spec_decimal(c.minutes as nat) + " "@ + spec_minute_word(c.minutes as int)
}

/// Renders the countdown sentence.
pub fn render_countdown(c: &Countdown) -> (r: String)
    ensures
        r@ == spec_render_countdown(*c),
{
    let mut line = String::from_str("Next price update in ");
    let blocks = format_u64(c.blocks_remaining);
    line.append(blocks.as_str());
    line.append(" blocks, or ");
    let hours = format_u64(c.hours);
    line.append(hours.as_str());
    line.append(" ");
    line.append(hour_word(c.hours));
    line.append(" and ");
    let minutes = format_u64(c.minutes);
    line.append(minutes.as_str());
    line.append(" ");
    line.append(minute_word(c.minutes));
    proof {
        assert(line@ =~= spec_render_countdown(*c));
    }
    line
}

/// Law: the singular unit word appears exactly at a count of one — a count
/// of zero, or any count above one, renders the plural.
pub proof fn lemma_singular_exactly_at_one(h: int, m: int)
    ensures
        spec_hour_word(h) == "hour"@ <==> h == 1,
        spec_minute_word(m) == "minute"@ <==> m == 1,
{
    reveal_strlit("hour");
    reveal_strlit("hours");
    reveal_strlit("minute");
    reveal_strlit("minutes");
    assert("hour"@.len() != "hours"@.len());
    assert("minute"@.len() != "minutes"@.len());
}

} // verus!
