//! `/timeout`: when a member's timeout ends, and the Discord timestamps the
//! bot builds from Unix times.
use serenity::model::Timestamp;
use vstd::prelude::*;

verus! {

#[verifier::external_type_specification]
#[verifier::external_body]
pub struct ExTimestamp(serenity::model::Timestamp);

/// Whether `serenity::model::Timestamp::from_unix_timestamp` accepts `secs`:
/// whether that many seconds after the Unix epoch is a date the underlying
/// date-time type can hold.
pub uninterp spec fn unix_time_representable(secs: i64) -> bool;

/// A Discord timestamp, with the Unix time it was built from. Only
/// [`timestamp_from_unix`] builds one.
pub struct UnixTimestamp {
    stamp: Timestamp,
    secs: Ghost<i64>,
}

impl UnixTimestamp {
    /// The Unix time, in seconds, this timestamp was built from.
    pub closed spec fn secs(&self) -> i64 {
        self.secs@
    }

    /// The Discord timestamp.
    pub fn stamp(&self) -> Timestamp {
        self.stamp
    }
}

/// Builds a Discord timestamp with `Timestamp::from_unix_timestamp`.
/// Trusted: `Some` exactly when the named range check accepts `secs`, and
/// then the timestamp built from `secs` (whole seconds, UTC).
#[verifier::external_body]
pub(crate) fn timestamp_from_unix(secs: i64) -> (r: Option<UnixTimestamp>)
    ensures
        r is Some <==> unix_time_representable(secs),
        r matches Some(t) ==> t.secs() == secs,
{
    match Timestamp::from_unix_timestamp(secs) {
        Ok(stamp) => Some(UnixTimestamp { stamp, secs: Ghost(secs) }),
        Err(_) => None,
    }
}

/// The Unix time at which a timeout of `seconds` starting at `now` ends;
/// `None` when that time does not fit in 64 bits.
pub fn timeout_until(now: i64, seconds: i64) -> (r: Option<i64>)
    ensures
        r == (if i64::MIN <= now + seconds <= i64::MAX {
            Some((now + seconds) as i64)
        } else {
            None
        }),
{
    now.checked_add(seconds)
}

/// The timestamp until which a member is timed out: `seconds` after `now`;
/// `None` when that time does not fit in 64 bits or is no date a timestamp
/// can hold.
pub fn timeout_end(now: i64, seconds: i64) -> (r: Option<UnixTimestamp>)
    ensures
        r is Some <==> (i64::MIN <= now + seconds <= i64::MAX
            && unix_time_representable((now + seconds) as i64)),
        r matches Some(t) ==> t.secs() == now + seconds,
{
    match timeout_until(now, seconds) {
        None => None,
        Some(until) => timestamp_from_unix(until),
    }
}

} // verus!
