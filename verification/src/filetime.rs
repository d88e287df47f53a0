//! Windows file times as Unix time.

use vstd::prelude::*;

verus! {

/// Offset between the Windows `FILETIME` epoch (1601) and the Unix epoch, in 100 ns units.
pub const FILETIME_UNIX_EPOCH: i128 = 116_444_736_000_000_000;

/// Nanoseconds from the Unix epoch to `filetime`; none for 0 (unknown) and for
/// times that 64 bits cannot hold.
pub open spec fn unix_ns(filetime: u64) -> Option<i64> {
    let ns = (filetime - FILETIME_UNIX_EPOCH) * 100;
    if filetime != 0 && i64::MIN <= ns <= i64::MAX {
        Some(ns as i64)
    } else {
        None
    }
}

/// Converts a Windows `FILETIME` to Unix nanoseconds; `None` for 0 (unknown).
pub fn filetime_to_unix_ns(filetime: u64) -> (ns: Option<i64>)
    ensures
        ns == unix_ns(filetime),
{
    if filetime == 0 {
        return None;
    }
    let ns: i128 = (filetime as i128 - FILETIME_UNIX_EPOCH) * 100;
    match i64::try_from(ns) {
        Ok(value) => Some(value),
        Err(_) => None,
    }
}

/// Nothing is lost: a converted time gives back the `FILETIME` it came from.
pub proof fn conversion_is_exact(filetime: u64)
    requires
        unix_ns(filetime) is Some,
    ensures
        unix_ns(filetime)->0 / 100 + FILETIME_UNIX_EPOCH == filetime,
        unix_ns(filetime)->0 % 100 == 0,
{
}

/// Later file times convert to later Unix times.
pub proof fn conversion_keeps_order(earlier: u64, later: u64)
    requires
        earlier < later,
        unix_ns(earlier) is Some,
        unix_ns(later) is Some,
    ensures
        unix_ns(earlier)->0 < unix_ns(later)->0,
{
}

/// A time converts exactly when it is known and its nanoseconds from 1970 fit in 64
/// bits; and then to those, a `FILETIME` counting 100 ns from 1601 on.
pub proof fn times_count_from_1601(filetime: u64)
    ensures
        unix_ns(filetime) is Some <==> filetime != 0 && -0x8000_0000_0000_0000 <= (filetime
            - 116_444_736_000_000_000) * 100 <= 0x7FFF_FFFF_FFFF_FFFF,
        unix_ns(filetime) matches Some(ns) ==> ns == (filetime - 116_444_736_000_000_000) * 100,
{
}

/// Two times are as far apart after the conversion as before.
pub proof fn conversion_keeps_distances(a: u64, b: u64)
    requires
        unix_ns(a) is Some,
        unix_ns(b) is Some,
    ensures
        unix_ns(b)->0 - unix_ns(a)->0 == (b - a) * 100,
{
}

} // verus!
