//! When to try again after a failed connection or subscription.

use vstd::prelude::*;

verus! {

/// How many failures in a row end the attempts.
pub const MAX_RETRIES: u32 = 5;

/// Seconds waited after the first failure; each further failure waits as
/// many seconds longer.
pub const BASE_DELAY_SECS: u64 = 1;

/// Seconds waited before subscribing again after the stream was lost.
pub const RECONNECT_DELAY_SECS: u64 = 5;

/// What to do after a failure.
#[derive(Clone, Copy, Debug, PartialEq, Eq, Structural)]
pub enum RetryDecision {
    /// Too many failures: report the last one.
    GiveUp,
    /// Wait `delay_secs` seconds and try again; `retries` failures have been
    /// counted.
    Wait { retries: u32, delay_secs: u64 },
}

/// What to do after one more failure, `retries` having been counted before
/// it.
pub open spec fn spec_after_failure(retries: u32) -> RetryDecision {
    if retries + 1 >= MAX_RETRIES {
        RetryDecision::GiveUp
    } else {
        RetryDecision::Wait {
            retries: (retries + 1) as u32,
            delay_secs: (BASE_DELAY_SECS * (retries + 1)) as u64,
        }
    }
}

/// Decides what to do after one more failure, `retries` having been counted
/// before it.
pub fn after_failure(retries: u32) -> (r: RetryDecision)
    ensures
        r == spec_after_failure(retries),
{
    if retries >= MAX_RETRIES - 1 {
        RetryDecision::GiveUp
    } else {
        let counted: u32 = retries + 1;
        RetryDecision::Wait { retries: counted, delay_secs: BASE_DELAY_SECS * (counted as u64) }
    }
}

/// The seconds waited in all before the attempts end, counted from
/// `retries` failures: the sum of the waits that are still to come.
pub open spec fn spec_total_wait(retries: u32) -> int
    decreases MAX_RETRIES - retries,
{
    match spec_after_failure(retries) {
        RetryDecision::GiveUp => 0,
        RetryDecision::Wait { retries: counted, delay_secs } => delay_secs + spec_total_wait(
            counted,
        ),
    }
}

/// The attempts end with the fifth failure in a row, after waits of one,
/// two, three and four seconds: ten seconds in all. Every wait is shorter
/// than five seconds.
pub proof fn lemma_retries_are_bounded(retries: u32)
    ensures
        retries >= 4 ==> spec_after_failure(retries) == RetryDecision::GiveUp,
        retries < 4 ==> spec_after_failure(retries) == (RetryDecision::Wait {
            retries: (retries + 1) as u32,
            delay_secs: (retries + 1) as u64,
        }),
        spec_total_wait(0) == 10,
{
    reveal_with_fuel(spec_total_wait, 6);
}

} // verus!
