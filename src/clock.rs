use vstd::prelude::*;

verus! {

/// Relies on chrono's `Utc::now` and `DateTime::timestamp_millis`: the current time in Unix
/// milliseconds. Nothing is promised of its value.
#[verifier::external_body]
pub(crate) fn now_millis() -> (r: i64) {
    chrono::Utc::now().timestamp_millis()
}

/// The whole seconds (rounded down) in `ms` milliseconds.
pub fn unix_seconds(ms: i64) -> (r: i64)
    ensures
        r == ms / 1000,
{
    if ms >= 0 {
        let u = ms as u64;
        (u / 1000) as i64
    } else {
        let a = (-(ms + 1)) as u64;
        let q = a / 1000;
        proof {
            let m = ms as int;
            assert(a as int == -(m + 1));
            assert((q as int) * 1000 <= a as int && (a as int) < (q as int) * 1000 + 1000) by (nonlinear_arith)
                requires q as int == (a as int) / 1000, a as int >= 0;
            let r = -(q as int) - 1;
            assert(r * 1000 <= m && m < r * 1000 + 1000);
            assert(m / 1000 == r) by (nonlinear_arith)
                requires r * 1000 <= m, m < r * 1000 + 1000;
        }
        -(q as i64) - 1
    }
}

/// Milliseconds in a day.
pub const DAY_MS: i64 = 86_400_000;

/// The start of the UTC day holding `ms`, in Unix milliseconds, or the earliest `i64`
/// when that start lies before it.
pub open spec fn day_start_of(ms: i64) -> i64 {
    if (ms / DAY_MS) * DAY_MS >= i64::MIN {
        ((ms / DAY_MS) * DAY_MS) as i64
    } else {
        i64::MIN
    }
}

/// The start of the UTC day holding `ms`, in Unix milliseconds, or the earliest `i64`
/// when that start lies before it.
pub fn day_start(ms: i64) -> (r: i64)
    ensures
        r == day_start_of(ms),
{
    let d = if ms >= 0 {
        ((ms as u64) / (DAY_MS as u64)) as i64
    } else {
        let a = (-(ms + 1)) as u64;
        let q = a / (DAY_MS as u64);
        proof {
            let m = ms as int;
            assert((q as int) * DAY_MS <= a as int && (a as int) < (q as int) * DAY_MS + DAY_MS) by (nonlinear_arith)
                requires q as int == (a as int) / (DAY_MS as int), a as int >= 0;
            let r = -(q as int) - 1;
            assert(r * DAY_MS <= m && m < r * DAY_MS + DAY_MS);
            assert(m / (DAY_MS as int) == r) by (nonlinear_arith)
                requires r * DAY_MS <= m, m < r * DAY_MS + DAY_MS;
        }
        -(q as i64) - 1
    };
    assert(d == ms / DAY_MS);
    assert(d * DAY_MS <= ms) by (nonlinear_arith)
        requires d == ms / DAY_MS;
    match d.checked_mul(DAY_MS) {
        Some(x) => x,
        None => i64::MIN,
    }
}

} // verus!
