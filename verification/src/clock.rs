//! The one point where the library reads the clock, and the arithmetic
//! on the plain timestamps it hands out.
use vstd::prelude::*;

verus! {

/// Relies on chrono's `From<SystemTime>` conversion to a UTC date,
/// read out through `DateTime::timestamp` as whole non-leap seconds
/// since the Unix epoch. The conversion, unlike chrono's `Utc::now`,
/// also handles a system clock that reads before the epoch. Nothing is
/// promised of the value: it depends on the machine's clock.
#[verifier::external_body]
pub(crate) fn now_unix_seconds() -> (t: i64) {
    let now: chrono::DateTime<chrono::Utc> = std::time::SystemTime::now().into();
    now.timestamp()
}

/// Whole seconds from `then` to `now`, clamped below at zero (a clock
/// that went backwards reads as no time passed).
pub open spec fn spec_seconds_between(then: int, now: int) -> int {
    if now <= then {
        0
    } else {
        now - then
    }
}

/// Whole seconds from `then` to `now`, clamped below at zero.
pub fn seconds_between(then: i64, now: i64) -> (d: u64)
    ensures
        d == spec_seconds_between(then as int, now as int),
{
    if now <= then {
        0
    } else {
        ((now as i128) - (then as i128)) as u64
    }
}

} // verus!
