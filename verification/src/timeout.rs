//! How long the caller of a dispatch waits, and how that is written down for
//! the environment.
//!
//! The environment takes the limit of a wait as a number of microseconds in
//! a machine word, and reads zero as "no limit". So a duration of zero asks
//! for a wait without limit, as no duration at all does. Every other
//! duration is a limit: its whole microseconds, and one microsecond where it
//! is shorter than that, because zero would take the limit away.

use core::time::Duration;
use vstd::prelude::*;

verus! {

/// The number of nanoseconds that a duration holds.
pub uninterp spec fn duration_nanos(duration: Duration) -> u128;

/// Calls `Duration::as_nanos` of the standard library, which returns the
/// total number of nanoseconds that the duration holds. The contract gives
/// that number its name and claims nothing more of it.
#[verifier::external_body]
fn as_nanos(duration: &Duration) -> (nanos: u128)
    ensures
        nanos == duration_nanos(*duration),
{
    duration.as_nanos()
}

/// The word that stands for a duration of so many nanoseconds: zero for
/// none, else the whole microseconds, and one where there is not a whole
/// one.
pub open spec fn limit_of(nanos: u128) -> u128 {
    if nanos == 0 {
        0
    } else if nanos < 1000 {
        1
    } else {
        nanos / 1000
    }
}

/// The word that stands for a timeout: zero where the wait has no limit,
/// else the limit in microseconds.
pub open spec fn timeout_word(timeout: Option<Duration>) -> u128 {
    match timeout {
        Some(duration) => limit_of(duration_nanos(duration)),
        None => 0,
    }
}

/// Whether a wait with this timeout ends only when the work is done: no
/// duration was given, or the one that was given spans no time.
pub open spec fn waits_forever(timeout: Option<Duration>) -> bool {
    match timeout {
        Some(duration) => duration_nanos(duration) == 0,
        None => true,
    }
}

/// Whether the timeout can be handed to the environment: its word is no
/// larger than a machine word can be.
pub open spec fn timeout_fits(timeout: Option<Duration>) -> bool {
    timeout_word(timeout) <= usize::MAX
}

/// The word that stands for a limit given as a machine word, or for none:
/// zero where no limit was given.
pub open spec fn encoded_timeout(limit: Option<usize>) -> usize {
    match limit {
        Some(micros) => micros,
        None => 0,
    }
}

/// The word that stands for a duration of so many nanoseconds: see
/// [`limit_of`].
pub fn limit_in_micro_seconds(nanos: u128) -> (word: u128)
    ensures
        word == limit_of(nanos),
        word == 0 <==> nanos == 0,
{
    if nanos == 0 {
        0
    } else if nanos < 1000 {
        1
    } else {
        nanos / 1000
    }
}

/// A word as an argument of machine word size, or `None` if it is larger
/// than such a word can be.
pub fn word_argument(word: u128) -> (argument: Option<usize>)
    ensures
        argument == if word <= usize::MAX {
            Some(word as usize)
        } else {
            None::<usize>
        },
{
    if word <= usize::MAX as u128 {
        Some(word as usize)
    } else {
        None
    }
}

/// The word that stands for a timeout: see [`timeout_word`].
pub fn timeout_in_micro_seconds(timeout: Option<Duration>) -> (word: u128)
    ensures
        word == timeout_word(timeout),
        word == 0 <==> waits_forever(timeout),
{
    match timeout {
        Some(duration) => limit_in_micro_seconds(as_nanos(&duration)),
        None => 0,
    }
}

/// The timeout as the argument that the environment takes, or `None` if it
/// has more microseconds than a machine word holds.
pub fn timeout_argument(timeout: Option<Duration>) -> (argument: Option<usize>)
    ensures
        argument == if timeout_fits(timeout) {
            Some(timeout_word(timeout) as usize)
        } else {
            None::<usize>
        },
{
    word_argument(timeout_in_micro_seconds(timeout))
}

} // verus!
