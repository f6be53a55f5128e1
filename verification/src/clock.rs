//! Wall-clock readings shared by the handlers: Unix seconds for
//! liveness windows and Unix milliseconds for the command outbox.

use vstd::prelude::*;

use std::time::{Duration, SystemTime, UNIX_EPOCH};

use crate::rtt_cache::duration_nanos;

verus! {

#[verifier::external_type_specification]
#[verifier::external_body]
pub struct ExSystemTime(SystemTime);

/// `SystemTime::now()`: a reading of the wall clock.
#[verifier::external_body]
fn system_now() -> SystemTime {
    SystemTime::now()
}

/// `SystemTime::duration_since(UNIX_EPOCH)`: the time elapsed since the
/// Unix epoch, `None` for a reading before it.
#[verifier::external_body]
fn since_unix_epoch(t: &SystemTime) -> Option<Duration> {
    t.duration_since(UNIX_EPOCH).ok()
}

/// `Duration::as_secs`: the whole seconds of `d`, its nanoseconds
/// divided by 10^9 and rounded down.
#[verifier::external_body]
fn duration_secs(d: &Duration) -> (r: u64)
    ensures
        r == duration_nanos(*d) / 1_000_000_000,
{
    d.as_secs()
}

/// `Duration::as_millis`: the whole milliseconds of `d`, its
/// nanoseconds divided by 10^6 and rounded down.
#[verifier::external_body]
fn duration_millis(d: &Duration) -> (r: u128)
    ensures
        r == duration_nanos(*d) / 1_000_000,
{
    d.as_millis()
}

/// Unix seconds of a wall-clock reading that lies `since` after the
/// epoch (`None`: before it), as the handlers take it: whole seconds,
/// 0 before the epoch.
pub open spec fn epoch_secs(since: Option<Duration>) -> i64 {
    match since {
        Some(d) => (duration_nanos(d) / 1_000_000_000) as i64,
        None => 0,
    }
}

/// Unix milliseconds of a wall-clock reading that lies `since` after
/// the epoch (`None`: before it): whole milliseconds, 0 before the
/// epoch.
pub open spec fn epoch_ms(since: Option<Duration>) -> i64 {
    match since {
        Some(d) => (duration_nanos(d) / 1_000_000) as i64,
        None => 0,
    }
}

/// Current wall clock as Unix epoch seconds (0 for a clock set before
/// the epoch): the seconds of some reading of the clock. Which reading
/// depends on the time.
pub fn now_unix_secs() -> (r: i64)
    ensures
        exists|since: Option<Duration>| r == #[trigger] epoch_secs(since),
{
    let since = since_unix_epoch(&system_now());
    match since {
        Some(d) => {
            let s = duration_secs(&d);
            assert(s as i64 == epoch_secs(since));
            s as i64
        },
        None => {
            assert(0 == epoch_secs(since));
            0
        },
    }
}

/// Current wall clock as Unix epoch milliseconds (0 for a clock set
/// before the epoch): the milliseconds of some reading of the clock.
/// Which reading depends on the time.
pub fn now_ms() -> (r: i64)
    ensures
        exists|since: Option<Duration>| r == #[trigger] epoch_ms(since),
{
    let since = since_unix_epoch(&system_now());
    match since {
        Some(d) => {
            let m = duration_millis(&d);
            assert(m as i64 == epoch_ms(since));
            m as i64
        },
        None => {
            assert(0 == epoch_ms(since));
            0
        },
    }
}

/// A reading in milliseconds and the same reading in seconds agree:
/// the seconds are the milliseconds divided by 1000, rounded down
/// (for any reading whose milliseconds fit an `i64`).
pub proof fn law_ms_and_secs_readings_agree(since: Option<Duration>)
    requires
        since matches Some(d) ==> duration_nanos(d) / 1_000_000 <= i64::MAX,
    ensures
        epoch_secs(since) == epoch_ms(since) / 1000,
{
    if let Some(d) = since {
        let n = duration_nanos(d) as int;
        assert((n / 1_000_000) / 1000 == n / 1_000_000_000) by {
            vstd::arithmetic::div_mod::lemma_div_denominator(n, 1_000_000, 1000);
        }
    }
}

} // verus!
