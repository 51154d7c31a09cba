//! Points in time and spans between them.

use vstd::prelude::*;

verus! {

/// Nanoseconds in one second.
pub const NANOS_PER_SECOND: u128 = 1_000_000_000;

/// Whether the calendar has an instant `secs` seconds and `nanos` nanoseconds
/// after the Unix epoch. Years run from -262143 to 262142, and a nanosecond part
/// of one second or more stands for a leap second at the end of a minute.
pub open spec fn instant_exists(secs: int, nanos: int) -> bool {
    &&& -8_334_601_228_800 <= secs <= 8_210_266_876_799
    &&& 0 <= nanos < 2_000_000_000
    &&& nanos >= 1_000_000_000 ==> secs % 60 == 59
}

/// The nanoseconds from one instant to another, negative where the second comes
/// first. A leap second that lies between the two times of day is counted.
pub open spec fn nanos_between(
    start_secs: int,
    start_nanos: int,
    end_secs: int,
    end_nanos: int,
) -> int {
    let start_of_day = start_secs % 86_400;
    let end_of_day = end_secs % 86_400;
    let leap: int = if end_of_day > start_of_day && start_nanos >= 1_000_000_000 {
        1
    } else if end_of_day < start_of_day && end_nanos >= 1_000_000_000 {
        -1
    } else {
        0
    };
    (end_secs - start_secs + leap) * 1_000_000_000 + (end_nanos - start_nanos)
}

/// Calls `chrono::DateTime::<Utc>::from_timestamp`, which yields an instant for
/// the seconds and nanoseconds that chrono's calendar has, and nothing else.
#[verifier::external_body]
fn chrono_has_instant(secs: i64, nanos: u32) -> (res: bool)
    ensures
        res == instant_exists(secs as int, nanos as int),
{
    chrono::DateTime::<chrono::Utc>::from_timestamp(secs, nanos).is_some()
}

/// Calls the subtraction of two `chrono::DateTime<Utc>` values and
/// `chrono::TimeDelta::to_std`: the time from the start to the end, and nothing
/// where the end comes first.
#[verifier::external_body]
fn chrono_nanos_between(start_secs: i64, start_nanos: u32, end_secs: i64, end_nanos: u32) -> (res:
    Option<u128>)
    requires
        instant_exists(start_secs as int, start_nanos as int),
        instant_exists(end_secs as int, end_nanos as int),
    ensures
        match res {
            Some(n) => n == nanos_between(
                start_secs as int,
                start_nanos as int,
                end_secs as int,
                end_nanos as int,
            ),
            None => nanos_between(
                start_secs as int,
                start_nanos as int,
                end_secs as int,
                end_nanos as int,
            ) < 0,
        },
{
    let start = chrono::DateTime::<chrono::Utc>::from_timestamp(start_secs, start_nanos).unwrap();
    let end = chrono::DateTime::<chrono::Utc>::from_timestamp(end_secs, end_nanos).unwrap();
    (end - start).to_std().ok().map(|d| d.as_nanos())
}

/// A span of time.
#[derive(Debug, Clone, Copy, PartialEq, Eq, Hash, Structural)]
pub struct Duration {
    /// The length in nanoseconds.
    pub nanos: u128,
}

impl Duration {
    /// No time at all.
    #[must_use]
    #[verifier::allow_in_spec]
    pub fn zero() -> Self
        returns
            (Duration { nanos: 0 }),
    {
        Duration { nanos: 0 }
    }

    /// `secs` seconds.
    #[must_use]
    pub fn from_secs(secs: u64) -> (res: Self)
        ensures
            res.nanos == secs * NANOS_PER_SECOND,
    {
        Duration { nanos: secs as u128 * NANOS_PER_SECOND }
    }

    /// `millis` milliseconds.
    #[must_use]
    pub fn from_millis(millis: u64) -> (res: Self)
        ensures
            res.nanos == millis * 1_000_000,
    {
        Duration { nanos: millis as u128 * 1_000_000 }
    }
}

/// An instant in coordinated universal time.
#[derive(Debug, Clone, Copy, PartialEq, Eq, Hash, Structural)]
pub struct Timestamp {
    secs: i64,
    nanos: u32,
}

impl Timestamp {
    #[verifier::type_invariant]
    spec fn well_formed(self) -> bool {
        instant_exists(self.secs as int, self.nanos as int)
    }

    /// Whole seconds since the Unix epoch.
    pub closed spec fn secs(self) -> int {
        self.secs as int
    }

    /// Nanoseconds within the second.
    pub closed spec fn nanos(self) -> int {
        self.nanos as int
    }

    /// The instant `secs` seconds and `nanos` nanoseconds after the Unix epoch,
    /// where the calendar has it.
    #[must_use]
    pub fn from_timestamp(secs: i64, nanos: u32) -> (res: Option<Self>)
        ensures
            match res {
                Some(t) => t.secs() == secs && t.nanos() == nanos && instant_exists(
                    secs as int,
                    nanos as int,
                ),
                None => !instant_exists(secs as int, nanos as int),
            },
    {
        if chrono_has_instant(secs, nanos) {
            Some(Timestamp { secs, nanos })
        } else {
            None
        }
    }

    /// The Unix epoch.
    #[must_use]
    pub fn unix_epoch() -> (res: Self)
        ensures
            res.secs() == 0,
            res.nanos() == 0,
    {
        Timestamp { secs: 0, nanos: 0 }
    }

    /// Whole seconds since the Unix epoch.
    #[must_use]
    pub fn timestamp(&self) -> (res: i64)
        ensures
            res == self.secs(),
            instant_exists(res as int, 0),
    {
        proof {
            use_type_invariant(&*self);
        }
        self.secs
    }

    /// Nanoseconds within the second.
    #[must_use]
    pub fn subsec_nanos(&self) -> (res: u32)
        ensures
            res == self.nanos(),
    {
        self.nanos
    }

    /// The nanoseconds from `earlier` to this instant.
    pub open spec fn nanos_since(self, earlier: Timestamp) -> int {
        nanos_between(earlier.secs(), earlier.nanos(), self.secs(), self.nanos())
    }

    /// The time from `earlier` to this instant, or none at all where this
    /// instant comes first.
    #[must_use]
    pub fn saturating_since(&self, earlier: &Timestamp) -> (res: Duration)
        ensures
            res.nanos == if self.nanos_since(*earlier) < 0 {
                0
            } else {
                self.nanos_since(*earlier)
            },
    {
        proof {
            use_type_invariant(self);
            use_type_invariant(earlier);
        }
        match chrono_nanos_between(earlier.secs, earlier.nanos, self.secs, self.nanos) {
            Some(nanos) => Duration { nanos },
            None => Duration::zero(),
        }
    }
}

/// Instants with the same seconds and nanoseconds are the same.
pub proof fn lemma_same_instant(a: Timestamp, b: Timestamp)
    requires
        a.secs() == b.secs(),
        a.nanos() == b.nanos(),
    ensures
        a == b,
{
}

} // verus!
