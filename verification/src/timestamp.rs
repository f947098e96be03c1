//! Points in time.
use vstd::prelude::*;

verus! {

/// A point in time: seconds since the Unix epoch, and nanoseconds within the
/// second.
#[derive(Clone, Copy, Debug, PartialEq, Eq, Structural)]
pub struct Timestamp {
    pub seconds: i64,
    pub nanos: i32,
}

/// The first second of the year -262143, the earliest that has a date.
pub const FIRST_SECOND: i64 = -8334601228800;

/// The last second of the year 262142, the latest that has a date.
pub const LAST_SECOND: i64 = 8210266876799;

/// The point in time has a calendar date: its second lies in the calendar's
/// range, and its nanoseconds lie within a second, or within the leap second
/// that may follow the last second of a minute.
pub open spec fn has_date(seconds: int, nanos: int) -> bool {
    &&& FIRST_SECOND <= seconds <= LAST_SECOND
    &&& 0 <= nanos < 2_000_000_000
    &&& nanos >= 1_000_000_000 ==> seconds % 60 == 59
}

/// `chrono::DateTime::from_timestamp`, read back with `timestamp` and
/// `timestamp_subsec_nanos`: it gives back the point in time it was given where
/// that has a date from the year -262143 to the year 262142, and nothing
/// otherwise.
#[verifier::external_body]
fn utc_from_timestamp(seconds: i64, nanos: u32) -> (r: Option<Timestamp>)
    ensures
        r == if has_date(seconds as int, nanos as int) {
            Some((Timestamp { seconds, nanos: nanos as i32 }))
        } else {
            None
        },
{
    chrono::DateTime::from_timestamp(seconds, nanos).map(
        |dt| Timestamp { seconds: dt.timestamp(), nanos: dt.timestamp_subsec_nanos() as i32 },
    )
}

/// The stored form of a point in time that a request names, or `None` where it
/// has no date.
pub fn from_proto_ts(ts: Timestamp) -> (r: Option<Timestamp>)
    ensures
        r == if has_date(ts.seconds as int, ts.nanos as int) {
            Some(ts)
        } else {
            None
        },
{
    if ts.nanos < 0 {
        return None;
    }
    utc_from_timestamp(ts.seconds, ts.nanos as u32)
}

/// The stored form of an optional point in time.
pub open spec fn stored_time(ts: Option<Timestamp>) -> Option<Timestamp> {
    match ts {
        Some(t) if has_date(t.seconds as int, t.nanos as int) => Some(t),
        _ => None,
    }
}

/// The stored form of an optional point in time.
pub fn opt_from_proto_ts(ts: Option<Timestamp>) -> (r: Option<Timestamp>)
    ensures
        r == stored_time(ts),
{
    match ts {
        Some(t) => from_proto_ts(t),
        None => None,
    }
}

/// A point in time is stored as it is sent, where the calendar has it, and
/// never as another one.
pub proof fn law_time_is_stored_as_sent(ts: Option<Timestamp>)
    ensures
        stored_time(ts) == ts || stored_time(ts) is None,
        ts matches Some(t) ==> (stored_time(ts) is Some <==> {
            &&& -8334601228800 <= t.seconds <= 8210266876799
            &&& 0 <= t.nanos < 1_000_000_000 || 1_000_000_000 <= t.nanos < 2_000_000_000
                && t.seconds % 60 == 59
        }),
{
}

} // verus!
