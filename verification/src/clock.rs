//! Points in time as plain numbers, and the one place where the clock is read.

use vstd::prelude::*;

verus! {

/// A point in time: whole seconds since 1970-01-01 00:00:00 UTC, and the
/// nanoseconds of the second that has begun.
#[derive(Clone, Copy, Debug, PartialEq, Eq, Structural)]
pub struct Timestamp {
    pub secs: i64,
    pub nanos: u32,
}

/// The largest count of seconds that a timestamp holds (the end of the year 9999).
pub const MAX_SECS: i64 = 253_402_300_799;

/// The smallest count of seconds that a timestamp holds.
pub const MIN_SECS: i64 = -253_402_300_799;

impl Timestamp {
    /// Seconds within ten thousand years of the epoch, nanoseconds within a second.
    pub open spec fn valid(&self) -> bool {
        MIN_SECS <= self.secs <= MAX_SECS && self.nanos < 1_000_000_000
    }

    /// The point in time as nanoseconds since the epoch.
    pub open spec fn as_nanos(&self) -> int {
        self.secs * 1_000_000_000 + self.nanos
    }

    /// The timestamp nearest to the given parts that is valid: seconds
    /// outside the range become the nearest bound, excess nanoseconds become
    /// the last nanosecond of the second.
    pub open spec fn clamped(secs: i64, nanos: u32) -> Timestamp {
        Timestamp {
            secs: if secs < MIN_SECS {
                MIN_SECS
            } else if secs > MAX_SECS {
                MAX_SECS
            } else {
                secs
            },
            nanos: if nanos < 1_000_000_000 {
                nanos
            } else {
                999_999_999
            },
        }
    }

    /// A valid timestamp from seconds and nanoseconds, whatever they are.
    pub fn new(secs: i64, nanos: u32) -> (t: Timestamp)
        ensures
            t == Timestamp::clamped(secs, nanos),
            t.valid(),
    {
        Timestamp {
            secs: if secs < MIN_SECS {
                MIN_SECS
            } else if secs > MAX_SECS {
                MAX_SECS
            } else {
                secs
            },
            nanos: if nanos < 1_000_000_000 {
                nanos
            } else {
                999_999_999
            },
        }
    }

    /// The seconds since the epoch as a 32-bit count: nothing for a time
    /// before the epoch, else the low 32 bits.
    pub open spec fn low_seconds(&self) -> u32 {
        if self.secs < 0 {
            0u32
        } else {
            (self.secs as u64 & 0xFFFF_FFFF) as u32
        }
    }

    /// The seconds as the 32-bit count that a packet carries.
    pub fn seconds_u32(&self) -> (s: u32)
        ensures
            s == self.low_seconds(),
    {
        if self.secs < 0 {
            0
        } else {
            let wide: u64 = self.secs as u64;
            let low: u64 = wide & 0xFFFF_FFFF;
            assert(low <= 0xFFFF_FFFF) by (bit_vector)
                requires
                    low == wide & 0xFFFF_FFFF,
            ;
            low as u32
        }
    }
}

/// The whole seconds from `start` to `now`, rounded towards zero; negative
/// where `now` lies before `start`.
pub open spec fn whole_seconds_between(start: Timestamp, now: Timestamp) -> int {
    let nanos = now.as_nanos() - start.as_nanos();
    if nanos >= 0 {
        nanos / 1_000_000_000
    } else {
        -((-nanos) / 1_000_000_000)
    }
}

/// The whole seconds from `start` to `now`, rounded towards zero.
pub fn seconds_between(start: Timestamp, now: Timestamp) -> (s: i64)
    requires
        start.valid(),
        now.valid(),
    ensures
        s == whole_seconds_between(start, now),
{
    let nanos: i128 = (now.secs as i128 - start.secs as i128) * 1_000_000_000 + (now.nanos as i128
        - start.nanos as i128);
    if nanos >= 0 {
        (nanos / 1_000_000_000) as i64
    } else {
        let back: i128 = (-nanos) / 1_000_000_000;
        (-back) as i64
    }
}

/// Reads the system clock with `std::time::SystemTime::now` and turns the
/// reading into seconds and nanoseconds with `chrono`'s conversion from
/// `SystemTime` to `DateTime<Utc>`. Trusted, and nothing is claimed of the
/// value. The conversion counts a reading before 1970 backwards from the
/// epoch. It has no value, and stops the program, only for a reading beyond
/// the range of `DateTime`, more than 262,000 years from the epoch: further
/// than an operating system lets its clock be set.
#[verifier::external_body]
fn read_clock() -> (parts: (i64, u32)) {
    let t = chrono::DateTime::<chrono::Utc>::from(std::time::SystemTime::now());
    (t.timestamp(), t.timestamp_subsec_nanos())
}

/// The current time. A clock that stands before the epoch gives negative
/// seconds, which a packet then carries as zero (see `seconds_u32`).
pub fn now() -> (t: Timestamp)
    ensures
        t.valid(),
{
    let parts = read_clock();
    Timestamp::new(parts.0, parts.1)
}

} // verus!
