//! Instants as micro-seconds since the Unix epoch, within the range of
//! instants that the date library can represent.
use vstd::prelude::*;

verus! {

/// Latest representable instant, in whole seconds since the epoch.
pub const MAX_SECONDS: i64 = 8210266876799;

/// Earliest representable instant, in whole seconds since the epoch.
pub const MIN_SECONDS: i64 = -8334601315200;

/// Whether `t` (micro-seconds since the epoch) is a representable instant.
pub open spec fn in_range(t: int) -> bool {
    MIN_SECONDS * 1_000_000 <= t <= MAX_SECONDS * 1_000_000 + 999_999
}

/// The whole seconds since the epoch of the instant `t`, rounded down.
pub open spec fn seconds_of(t: int) -> int {
    t / 1_000_000
}

/// The instant `minutes` minutes after `t`, when it is representable.
pub open spec fn plus_minutes(t: int, minutes: int) -> Option<int> {
    let secs = seconds_of(t) + minutes * 60;
    if MIN_SECONDS <= secs <= MAX_SECONDS {
        Some(t + minutes * 60_000_000)
    } else {
        None
    }
}

/// The current time.
/// Trusted: `chrono::Utc::now` reads the system clock, which is at or after
/// the epoch (it panics otherwise), and `timestamp_micros` counts the
/// micro-seconds since then. Nothing is stated of which instant it is.
#[verifier::external_body]
pub(crate) fn now_micros() -> (t: i64)
    ensures
        0 <= t,
        in_range(t as int),
{
    chrono::Utc::now().timestamp_micros()
}

/// The whole seconds since the epoch of `t`, rounded down.
pub fn seconds(t: i64) -> (s: i64)
    requires
        in_range(t as int),
    ensures
        s == seconds_of(t as int),
{
    if t >= 0 {
        t / 1_000_000
    } else {
        let q = t / 1_000_000;
        if q * 1_000_000 == t { q } else { q - 1 }
    }
}

/// The instant `minutes` minutes after `t`, or `None` when that instant is
/// not representable (where the date library would panic).
pub fn add_minutes(t: i64, minutes: i64) -> (res: Option<i64>)
    requires
        in_range(t as int),
    ensures
        res == match plus_minutes(t as int, minutes as int) {
            Some(v) => Some(v as i64),
            None => None::<i64>,
        },
        res matches Some(v) ==> in_range(v as int),
{
    let secs = seconds(t);
    if minutes > 300_000_000_000 || minutes < -300_000_000_000 {
        return None;
    }
    let shifted = secs + minutes * 60;
    if shifted < MIN_SECONDS || shifted > MAX_SECONDS {
        return None;
    }
    let frac = t - secs * 1_000_000;
    Some(shifted * 1_000_000 + frac)
}

/// The instant `hours` hours after `t`, where that stays representable. The
/// number of hours is one that a time span can hold (the date library panics
/// on more).
pub fn add_hours(t: i64, hours: i64) -> (res: Option<i64>)
    requires
        in_range(t as int),
        -2_562_047_788_015 <= hours <= 2_562_047_788_015,
    ensures
        res == match plus_minutes(t as int, hours * 60) {
            Some(v) => Some(v as i64),
            None => None::<i64>,
        },
        res matches Some(v) ==> in_range(v as int),
{
    add_minutes(t, hours * 60)
}

/// The current time, for stamping records.
pub fn current_time() -> (t: i64)
    ensures
        0 <= t,
        in_range(t as int),
{
    now_micros()
}

} // verus!
