//! Checkpoint countdown arithmetic: how many blocks remain until the next
//! scheduled price update, and how long that is in hours and minutes.

use vstd::prelude::*;

verus! {

/// Why a countdown could not be computed.
#[derive(Clone, Copy, PartialEq, Eq, Structural, Debug)]
pub enum ArithmeticError {
    /// More blocks have elapsed since the last update than the checkpoint
    /// interval allows: the feed is overdue, so no non-negative remainder
    /// exists. Reported instead of letting unsigned subtraction wrap.
    Underflow,
}

/// The wait until the next checkpoint, in blocks and in wall-clock units.
///
/// Invariant (stated by [`countdown`]'s contract): `total_seconds` is
/// `blocks_remaining * seconds_per_block`, `hours` and `minutes` are the
/// truncating decomposition of `total_seconds` into whole hours and leftover
/// whole minutes.
#[derive(Clone, Copy, PartialEq, Eq, Structural, Debug)]
pub struct Countdown {
    pub blocks_remaining: u64,
    pub total_seconds: u64,
    pub hours: u64,
    pub minutes: u64,
}

/// Blocks left before the next checkpoint, as exact integers.
pub open spec fn spec_blocks_remaining(current: int, last: int, interval: int) -> int {
    interval - (current - last)
}

/// Whole hours in `total_seconds`, truncating.
pub open spec fn spec_hours(total_seconds: int) -> int {
    total_seconds / 3600
}

/// Whole minutes left over once the whole hours are taken out, truncating.
pub open spec fn spec_minutes(total_seconds: int) -> int {
    total_seconds / 60 - (total_seconds / 3600) * 60
}

/// What [`countdown`] returns, as exact integer arithmetic: the guarded
/// subtraction, the conversion to seconds, and the truncating decomposition
/// into whole hours and leftover whole minutes.
pub open spec fn spec_countdown(current: int, last: int, interval: int, spb: int) -> Result<
    Countdown,
    ArithmeticError,
> {
    if current - last > interval {
        Err(ArithmeticError::Underflow)
    } else {
        let total = spec_blocks_remaining(current, last, interval) * spb;
        Ok(
            Countdown {
                blocks_remaining: spec_blocks_remaining(current, last, interval) as u64,
                total_seconds: total as u64,
                hours: spec_hours(total) as u64,
                minutes: spec_minutes(total) as u64,
            },
        )
    }
}

/// Law: the leftover minute count never reaches sixty — the whole hours
/// absorb every full sixty minutes of the total.
pub proof fn lemma_minutes_below_sixty(total_seconds: int)
    requires
        total_seconds >= 0,
    ensures
        0 <= spec_minutes(total_seconds) < 60,
{
    let x = total_seconds / 60;
    vstd::arithmetic::div_mod::lemma_div_denominator(total_seconds, 60, 60);
    vstd::arithmetic::div_mod::lemma_fundamental_div_mod(x, 60);
    vstd::arithmetic::div_mod::lemma_mod_bound(x, 60);
}

/// Computes the countdown to the next checkpoint.
///
/// `blocks_remaining = interval_blocks - (current_height - last_update_height)`;
/// if more blocks have elapsed than the interval, the feed is overdue and the
/// call fails with [`ArithmeticError::Underflow`] rather than wrapping. The
/// block count is converted to seconds, then decomposed by truncating integer
/// division into whole hours and leftover whole minutes.
pub fn countdown(
    current_height: u64,
    last_update_height: u64,
    interval_blocks: u64,
    seconds_per_block: u64,
) -> (r: Result<Countdown, ArithmeticError>)
    requires
        last_update_height <= current_height,
        interval_blocks * seconds_per_block <= u64::MAX,
    ensures
        r == spec_countdown(
            current_height as int,
            last_update_height as int,
            interval_blocks as int,
            seconds_per_block as int,
        ),
        current_height - last_update_height > interval_blocks <==> r is Err,
        r matches Err(e) ==> e == ArithmeticError::Underflow,
        r matches Ok(c) ==> {
            &&& c.blocks_remaining == spec_blocks_remaining(
                current_height as int,
                last_update_height as int,
                interval_blocks as int,
            )
            &&& c.total_seconds == c.blocks_remaining * seconds_per_block
            &&& c.hours == spec_hours(c.total_seconds as int)
            &&& c.minutes == spec_minutes(c.total_seconds as int)
        },
{
    let elapsed: u64 = current_height - last_update_height;
    if elapsed > interval_blocks {
        return Err(ArithmeticError::Underflow);
    }
    let blocks_remaining: u64 = interval_blocks - elapsed;
    assert(blocks_remaining * seconds_per_block <= interval_blocks * seconds_per_block)
        by (nonlinear_arith)
        requires blocks_remaining <= interval_blocks, seconds_per_block >= 0,
    ;
    let total_seconds: u64 = blocks_remaining * seconds_per_block;
    let hours: u64 = total_seconds / 3600;
    proof {
        vstd::arithmetic::div_mod::lemma_div_denominator(total_seconds as int, 60, 60);
        vstd::arithmetic::div_mod::lemma_fundamental_div_mod(total_seconds as int / 60, 60);
        vstd::arithmetic::div_mod::lemma_mod_bound(total_seconds as int / 60, 60);
    }
    let minutes: u64 = total_seconds / 60 - hours * 60;
    Ok(Countdown { blocks_remaining, total_seconds, hours, minutes })
}

} // verus!
