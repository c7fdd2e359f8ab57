//! The clocks that the library reads. A clock that shows no usable time
//! gives nothing, and the caller decides what follows.

use vstd::prelude::*;

verus! {

/// `std::time::SystemTime::now`, then `duration_since(UNIX_EPOCH)` with
/// `as_secs` and `subsec_nanos`: the whole seconds since the epoch and the
/// nanoseconds beyond them, which are fewer than a second; or nothing where
/// the clock stands before the epoch.
#[verifier::external_body]
pub(crate) fn system_time() -> (r: Option<(u64, u32)>)
    ensures
        r matches Some(reading) ==> reading.1 < 1_000_000_000,
{
    let since = std::time::SystemTime::now().duration_since(std::time::UNIX_EPOCH).ok()?;
    Some((since.as_secs(), since.subsec_nanos()))
}

/// `jiff::Timestamp::try_from` with `std::time::SystemTime::now`, then
/// `as_nanosecond`: nanoseconds since the epoch, which lie between those of
/// `jiff::Timestamp::MIN` and `jiff::Timestamp::MAX`; or nothing where the
/// clock stands outside these.
#[verifier::external_body]
fn timestamp_nanoseconds() -> (r: Option<i128>)
    ensures
        r matches Some(t) ==> record_time(t),
{
    jiff::Timestamp::try_from(std::time::SystemTime::now()).ok().map(|t| t.as_nanosecond())
}

/// Seconds since the Unix epoch by the system clock. `None` where the clock
/// stands before the epoch.
pub fn fetch_unix_time() -> (r: Option<u128>)
    ensures
        r matches Some(t) ==> t <= u64::MAX,
{
    unix_time_of(system_time())
}

/// Seconds since the Unix epoch, for the times that tokens carry. `None`
/// where the clock stands before the epoch or beyond the times that 64 bits
/// with sign can count.
pub fn token_time_now() -> (r: Option<i64>)
    ensures
        r matches Some(t) ==> t >= 0,
{
    token_time_of(system_time())
}

/// Nanoseconds since the Unix epoch, for the times that records carry: a
/// time of the years -9999 to 9999, within which every such count stands for
/// a date. `None` where the clock stands outside these years.
pub fn record_time_now() -> (r: Option<i128>)
    ensures
        r matches Some(t) ==> record_time(t),
{
    timestamp_nanoseconds()
}

/// The earliest time that a record can carry, in nanoseconds since the
/// epoch: the second -377705023201.
pub const MIN_RECORD_TIME: i128 = -377_705_023_201_000_000_000;

/// The latest time that a record can carry, in nanoseconds since the epoch:
/// the last nanosecond of the second 253402207200.
pub const MAX_RECORD_TIME: i128 = 253_402_207_200_999_999_999;

/// Whether a count of nanoseconds since the epoch is a time that a record
/// can carry.
pub open spec fn record_time(nanoseconds: i128) -> bool {
    MIN_RECORD_TIME <= nanoseconds <= MAX_RECORD_TIME
}

/// The seconds of a clock reading, where there is one.
pub open spec fn spec_unix_time(reading: Option<(u64, u32)>) -> Option<u128> {
    match reading {
        Some(time) => Some(time.0 as u128),
        None => None,
    }
}

/// The seconds of a clock reading as a time for tokens, where there is a
/// reading and 64 bits with sign can count its seconds.
pub open spec fn spec_token_time(reading: Option<(u64, u32)>) -> Option<i64> {
    match reading {
        Some(time) => if time.0 <= i64::MAX {
            Some(time.0 as i64)
        } else {
            None
        },
        None => None,
    }
}

/// The seconds since the Unix epoch that a clock reading of seconds and
/// nanoseconds shows. `None` where the clock gave no reading.
pub fn unix_time_of(reading: Option<(u64, u32)>) -> (r: Option<u128>)
    ensures
        r == spec_unix_time(reading),
{
    match reading {
        Some((seconds, _)) => Some(seconds as u128),
        None => None,
    }
}

/// The time for tokens that a clock reading of seconds and nanoseconds
/// shows. `None` where the clock gave no reading or one beyond the times
/// that 64 bits with sign can count.
pub fn token_time_of(reading: Option<(u64, u32)>) -> (r: Option<i64>)
    ensures
        r == spec_token_time(reading),
{
    match reading {
        Some((seconds, _)) => if seconds <= 0x7fff_ffff_ffff_ffff {
            Some(seconds as i64)
        } else {
            None
        },
        None => None,
    }
}

} // verus!
