use vstd::prelude::*;
use chrono::DateTime;
use chrono_tz::Asia::Bangkok;
use std::time::{SystemTime, UNIX_EPOCH};

verus! {

/// The last second that chrono can represent, 31 December 262142,
/// 23:59:59 UTC, in seconds since the Unix epoch.
pub const LATEST_TIMESTAMP: i64 = 8_210_266_876_799;

/// The first second that chrono can represent, 1 January of the year
/// -262143, 00:00:00 UTC, in seconds since the Unix epoch.
pub const EARLIEST_TIMESTAMP: i64 = -8_334_601_315_200;

/// The second from which Asia/Bangkok keeps UTC+7 (April 1920).
pub const BANGKOK_UTC7_SINCE: i64 = -1_570_084_924;

/// The RFC 3339 text of the instant `secs` seconds and `nanos` nanoseconds
/// after the Unix epoch, as seen in the Asia/Bangkok time zone.
pub uninterp spec fn bangkok_rfc3339_of(secs: i64, nanos: u32) -> Seq<char>;

/// `s` ends with `suffix`.
pub open spec fn ends_with(s: Seq<char>, suffix: Seq<char>) -> bool {
    s.len() >= suffix.len() && s.subrange(s.len() - suffix.len(), s.len() as int) == suffix
}

#[verifier::external_type_specification]
#[verifier::external_body]
pub struct ExSystemTime(std::time::SystemTime);

/// Relies on std's `SystemTime::now`: the system clock's reading. Nothing
/// is known of it.
#[verifier::external_body]
fn system_now() -> (r: SystemTime) {
    SystemTime::now()
}

/// Relies on std's `SystemTime::duration_since` from `UNIX_EPOCH`: whether
/// `t` lies at or after the epoch, and its distance from the epoch in whole
/// seconds and the nanoseconds past them. A reading before the epoch comes
/// back as an error that carries the distance; it never panics. A
/// `Duration`'s sub-second nanoseconds are below one billion.
#[verifier::external_body]
fn offset_from_epoch(t: &SystemTime) -> (r: (bool, u64, u32))
    ensures
        r.2 < 1_000_000_000,
{
    match t.duration_since(UNIX_EPOCH) {
        Ok(d) => (true, d.as_secs(), d.subsec_nanos()),
        Err(e) => (false, e.duration().as_secs(), e.duration().subsec_nanos()),
    }
}

/// The instant `secs` seconds and `nanos` nanoseconds away from the epoch,
/// after it when `after` holds and before it otherwise, as whole seconds
/// since the epoch (rounded down) and nanoseconds past that second.
pub open spec fn instant_of(after: bool, secs: int, nanos: int) -> (int, int) {
    if after || nanos == 0 {
        (if after {
            secs
        } else {
            -secs
        }, nanos)
    } else {
        (-secs - 1, 1_000_000_000 - nanos)
    }
}

/// The instant the clock read, when it lies within chrono's range.
fn clock_instant(after: bool, secs: u64, nanos: u32) -> (r: Option<(i64, u32)>)
    requires
        nanos < 1_000_000_000,
    ensures
        ({
            let (s, n) = instant_of(after, secs as int, nanos as int);
            &&& EARLIEST_TIMESTAMP <= s <= LATEST_TIMESTAMP ==> r == Some((s as i64, n as u32))
            &&& !(EARLIEST_TIMESTAMP <= s <= LATEST_TIMESTAMP) ==> r is None
        }),
{
    if after {
        if secs > LATEST_TIMESTAMP as u64 {
            None
        } else {
            Some((secs as i64, nanos))
        }
    } else if nanos == 0 {
        if secs > -EARLIEST_TIMESTAMP as u64 {
            None
        } else {
            Some((-(secs as i64), 0))
        }
    } else if secs >= -EARLIEST_TIMESTAMP as u64 {
        None
    } else {
        Some((-(secs as i64) - 1, 1_000_000_000 - nanos))
    }
}

/// Relies on chrono's `DateTime::to_rfc3339` for the instant `secs` and
/// `nanos` after the epoch, moved into chrono-tz's Asia/Bangkok zone: the
/// text depends on the instant alone. `DateTime::from_timestamp` accepts
/// every instant within chrono's range with nanoseconds below one second.
/// From April 1920 on the zone's offset is seven hours, which the text ends
/// with.
#[verifier::external_body]
fn bangkok_rfc3339(secs: i64, nanos: u32) -> (r: Option<String>)
    ensures
        r matches Some(s) ==> s@ == bangkok_rfc3339_of(secs, nanos),
        EARLIEST_TIMESTAMP <= secs <= LATEST_TIMESTAMP && nanos < 1_000_000_000 ==> r is Some,
        secs >= BANGKOK_UTC7_SINCE ==> (r matches Some(s) ==> ends_with(s@, "+07:00"@)),
{
    match DateTime::from_timestamp(secs, nanos) {
        Some(t) => Some(t.with_timezone(&Bangkok).to_rfc3339()),
        None => None,
    }
}

/// The current time in Bangkok as RFC 3339 text: the text for the instant
/// the clock reads, which ends with the offset `+07:00` for any reading
/// from April 1920 on. A clock reading outside chrono's range, about
/// 262,000 years either side of the epoch, gives empty text.
pub fn bangkok_now_rfc3339() -> (r: String)
    ensures
        r@.len() == 0 || exists|secs: i64, nanos: u32|
            {
                &&& EARLIEST_TIMESTAMP <= secs <= LATEST_TIMESTAMP
                &&& nanos < 1_000_000_000
                &&& r@ == #[trigger] bangkok_rfc3339_of(secs, nanos)
                &&& secs >= BANGKOK_UTC7_SINCE ==> ends_with(r@, "+07:00"@)
            },
{
    let now = system_now();
    let (after, secs, nanos) = offset_from_epoch(&now);
    match clock_instant(after, secs, nanos) {
        Some((s, n)) => match bangkok_rfc3339(s, n) {
            Some(text) => text,
            None => String::new(),
        },
        None => String::new(),
    }
}

} // verus!
