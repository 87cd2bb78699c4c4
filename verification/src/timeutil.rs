//! Renders the age of a timestamp ("3 days", "1 minute") the way the wire
//! protocol shows dates. Only the clock reading itself comes from outside;
//! the breakdown into units is verified arithmetic.

use vstd::prelude::*;
use vstd::string::StringExecFns;

use crate::numfmt::{i64_to_string, spec_int_str};

verus! {

/// The first second chrono's calendar can represent.
pub const MIN_CLOCK: i64 = -8334601228800;

/// The last second chrono's calendar can represent.
pub const MAX_CLOCK: i64 = 8210266876799;

/// Truncating division, as Rust's `/` on signed integers computes it.
pub open spec fn tdiv(a: int, b: int) -> int {
    if a >= 0 {
        a / b
    } else {
        -((-a) / b)
    }
}

/// Truncating remainder, as Rust's `%` on signed integers computes it.
pub open spec fn tmod(a: int, b: int) -> int {
    if a >= 0 {
        a % b
    } else {
        -((-a) % b)
    }
}

/// A timestamp outside the representable calendar collapses to the epoch.
pub open spec fn spec_clamped_ts(t: int) -> int {
    if MIN_CLOCK <= t <= MAX_CLOCK {
        t
    } else {
        0
    }
}

/// A count and a unit, with a plural s for anything but one.
pub open spec fn spec_count_unit(n: int, unit: Seq<char>) -> Seq<char> {
    spec_int_str(n) + unit + (if n == 1 {
        Seq::<char>::empty()
    } else {
        "s"@
    })
}

/// The age of `timestamp` at `now`, rendered in the largest nonzero unit:
/// years, months (of thirty days), days, hours, minutes or seconds.
pub open spec fn spec_elapsed(timestamp: int, now: int) -> Seq<char> {
    let total = now - spec_clamped_ts(timestamp);
    let days = tdiv(total, 86400);
    let years = tdiv(days, 365);
    let months = tdiv(tmod(days, 365), 30);
    let days_rest = tmod(tmod(days, 365), 30);
    let hours = tdiv(tmod(total, 86400), 3600);
    let minutes = tdiv(tmod(total, 3600), 60);
    let seconds = tmod(total, 60);
    if years > 0 {
        spec_count_unit(years, " year"@)
    } else if months > 0 {
        spec_count_unit(months, " month"@)
    } else if days_rest > 0 {
        spec_count_unit(days_rest, " day"@)
    } else if hours > 0 {
        spec_count_unit(hours, " hour"@)
    } else if minutes > 0 {
        spec_count_unit(minutes, " minute"@)
    } else {
        spec_count_unit(seconds, " second"@)
    }
}

fn count_unit(n: i64, unit: &str) -> (r: String)
    ensures
        r@ == spec_count_unit(n as int, unit@),
{
    let mut out = i64_to_string(n);
    out.append(unit);
    if n != 1 {
        out.append("s");
    }
    proof {
        assert(out@ =~= spec_count_unit(n as int, unit@));
    }
    out
}

/// Renders the age of `timestamp` against the given clock reading.
pub fn format_elapsed(timestamp: i64, now: i64) -> (r: String)
    requires
        MIN_CLOCK <= now <= MAX_CLOCK,
    ensures
        r@ == spec_elapsed(timestamp as int, now as int),
{
    let date: i64 = if MIN_CLOCK <= timestamp && timestamp <= MAX_CLOCK {
        timestamp
    } else {
        0
    };
    let total: i64 = now - date;
    if total >= 0 {
        let t = total as u64;
        let days = t / 86400;
        let years = days / 365;
        let months = (days % 365) / 30;
        let days_rest = (days % 365) % 30;
        let hours = (t % 86400) / 3600;
        let minutes = (t % 3600) / 60;
        let seconds = t % 60;
        if years > 0 {
            count_unit(years as i64, " year")
        } else if months > 0 {
            count_unit(months as i64, " month")
        } else if days_rest > 0 {
            count_unit(days_rest as i64, " day")
        } else if hours > 0 {
            count_unit(hours as i64, " hour")
        } else if minutes > 0 {
            count_unit(minutes as i64, " minute")
        } else {
            count_unit(seconds as i64, " second")
        }
    } else {
        // Every unit of a negative age is nonpositive, so the rendering
        // falls through to seconds.
        let m = ((-total) as u64) % 60;
        let seconds: i64 = -(m as i64);
        proof {
            let tot = total as int;
            assert(tmod(tot, 60) == seconds);
            assert(tdiv(tot, 86400) <= 0);
            assert(tmod(tot, 86400) <= 0);
            assert(tdiv(tmod(tot, 86400), 3600) <= 0);
            assert(tmod(tot, 3600) <= 0);
            assert(tdiv(tmod(tot, 3600), 60) <= 0);
            assert(tdiv(tdiv(tot, 86400), 365) <= 0);
            assert(tmod(tdiv(tot, 86400), 365) <= 0);
            assert(tdiv(tmod(tdiv(tot, 86400), 365), 30) <= 0);
            assert(tmod(tmod(tdiv(tot, 86400), 365), 30) <= 0);
        }
        count_unit(seconds, " second")
    }
}

/// Relies on chrono::Utc::now: the current clock reading in seconds; any
/// valid reading lies within the representable calendar range.
#[verifier::external_body]
pub(crate) fn utc_now_seconds() -> (t: i64)
    ensures
        MIN_CLOCK <= t <= MAX_CLOCK,
{
    chrono::Utc::now().timestamp()
}

/// Renders the age of `timestamp` against the clock; some valid clock
/// reading decides the result.
pub fn make_time(timestamp: i64) -> (r: String)
    ensures
        exists|now: int|
            MIN_CLOCK <= now <= MAX_CLOCK && r@ == spec_elapsed(timestamp as int, now),
{
    let now = utc_now_seconds();
    let r = format_elapsed(timestamp, now);
    proof {
        assert(MIN_CLOCK <= now as int <= MAX_CLOCK && r@ == spec_elapsed(
            timestamp as int,
            now as int,
        ));
    }
    r
}

} // verus!
