//! Wall-clock time, as whole seconds since the Unix epoch.
use vstd::prelude::*;

verus! {

/// The RFC 3339 text of an instant, or `None` where chrono cannot represent it.
pub uninterp spec fn rfc3339_of(secs: i64) -> Option<Seq<char>>;

/// Relies on `chrono::Utc::now().timestamp()`: the current time in seconds.
#[verifier::external_body]
pub fn now_timestamp() -> i64 {
    chrono::Utc::now().timestamp()
}

/// Relies on `DateTime::<Utc>::from_timestamp` and `DateTime::to_rfc3339`.
#[verifier::external_body]
pub fn rfc3339(secs: i64) -> (r: Option<String>)
    ensures
        match r {
            Some(s) => rfc3339_of(secs) == Some(s@),
            None => rfc3339_of(secs) is None,
        },
{
    chrono::DateTime::<chrono::Utc>::from_timestamp(secs, 0).map(|d| d.to_rfc3339())
}

/// `t` moved `secs` seconds later, held at the largest instant if it would pass it.
pub open spec fn later_by(t: i64, secs: i64) -> i64 {
    if t + secs > i64::MAX {
        i64::MAX
    } else if t + secs < i64::MIN {
        i64::MIN
    } else {
        (t + secs) as i64
    }
}

pub fn add_seconds(t: i64, secs: i64) -> (r: i64)
    ensures
        r == later_by(t, secs),
{
    if secs > 0 && t > i64::MAX - secs {
        i64::MAX
    } else if secs < 0 && t < i64::MIN - secs {
        i64::MIN
    } else {
        t + secs
    }
}

} // verus!
