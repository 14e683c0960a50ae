use vstd::prelude::*;

verus! {

/// Earliest second (UTC, since the Unix epoch) that a `chrono::DateTime<Utc>` can hold:
/// the `timestamp()` of `DateTime::<Utc>::MIN_UTC`, which chrono writes as
/// `-262143-01-01T00:00:00Z` in its own calendar numbering of that year.
pub const MIN_TIMESTAMP_SECS: i64 = -8334601228800i64;

/// Latest second (UTC, since the Unix epoch) that a `chrono::DateTime<Utc>` can hold:
/// the `timestamp()` of `DateTime::<Utc>::MAX_UTC` (`+262142-12-31T23:59:59Z`).
pub const MAX_TIMESTAMP_SECS: i64 = 8210266876799i64;

/// One second in nanoseconds.
pub const NANOS_PER_SEC: u32 = 1_000_000_000u32;

/// Whether `(secs, nanos)` names an instant: the second lies in the supported
/// range, and a nanosecond part of one second or more (a leap second) is only
/// allowed on the last second of a minute.
pub open spec fn is_instant(secs: int, nanos: int) -> bool {
    &&& MIN_TIMESTAMP_SECS <= secs <= MAX_TIMESTAMP_SECS
    &&& 0 <= nanos < 2 * NANOS_PER_SEC
    &&& (nanos >= NANOS_PER_SEC ==> secs % 60 == 59)
}

/// An instant in UTC: whole seconds since the Unix epoch and the nanoseconds
/// within that second (at or above one second during a leap second).
#[derive(Debug, Clone, Copy, PartialEq, Eq, Structural)]
pub struct Timestamp {
    secs: i64,
    nanos: u32,
}

impl Timestamp {
    #[verifier::type_invariant]
    spec fn inv(self) -> bool {
        is_instant(self.secs as int, self.nanos as int)
    }

    /// Whole seconds since the Unix epoch.
    pub closed spec fn spec_secs(self) -> i64 {
        self.secs
    }

    /// Nanoseconds within the second.
    pub closed spec fn spec_nanos(self) -> u32 {
        self.nanos
    }

    /// The timestamp of `secs` and `nanos`, or `None` where they name no instant.
    pub fn new(secs: i64, nanos: u32) -> (res: Option<Timestamp>)
        ensures
            res is Some <==> is_instant(secs as int, nanos as int),
            res matches Some(t) ==> t.spec_secs() == secs && t.spec_nanos() == nanos,
    {
        if secs < MIN_TIMESTAMP_SECS || secs > MAX_TIMESTAMP_SECS || nanos >= 2 * NANOS_PER_SEC {
            return None;
        }
        if nanos >= NANOS_PER_SEC && !last_second_of_minute(secs) {
            return None;
        }
        Some(Timestamp { secs, nanos })
    }

    /// Whole seconds since the Unix epoch.
    pub fn secs(&self) -> (res: i64)
        ensures
            res == self.spec_secs(),
    {
        self.secs
    }

    /// Nanoseconds within the second.
    pub fn nanos(&self) -> (res: u32)
        ensures
            res == self.spec_nanos(),
    {
        self.nanos
    }

    /// Whether this instant is at or before `other`.
    pub fn is_at_or_before(&self, other: &Timestamp) -> (res: bool)
        ensures
            res == self.spec_le(*other),
            self.spec_secs() < other.spec_secs() ==> res,
            self.spec_secs() > other.spec_secs() ==> !res,
            self.spec_secs() == other.spec_secs() ==> (res <==> self.spec_nanos() <= other.spec_nanos()),
    {
        self.secs < other.secs || (self.secs == other.secs && self.nanos <= other.nanos)
    }

    /// Instants ordered by second, then by nanosecond.
    pub open spec fn spec_le(self, other: Timestamp) -> bool {
        self.spec_secs() < other.spec_secs() || (self.spec_secs() == other.spec_secs()
            && self.spec_nanos() <= other.spec_nanos())
    }

    /// The timestamp made of `secs` and `nanos` (meaningful where they name an instant).
    pub closed spec fn from_parts(secs: int, nanos: int) -> Timestamp {
        Timestamp { secs: secs as i64, nanos: nanos as u32 }
    }

    /// A timestamp made of in-range parts gives those parts back, and a timestamp
    /// is made of its own parts.
    pub proof fn lemma_parts(self, secs: int, nanos: int)
        ensures
            i64::MIN <= secs <= i64::MAX && 0 <= nanos <= u32::MAX ==> {
                &&& Timestamp::from_parts(secs, nanos).spec_secs() == secs
                &&& Timestamp::from_parts(secs, nanos).spec_nanos() == nanos
            },
            Timestamp::from_parts(self.spec_secs() as int, self.spec_nanos() as int) == self,
    {
    }

    /// The instant `seconds` whole seconds later, as `chrono` adds a whole number of
    /// seconds: a leap second is left for the ordinary second before it.
    pub open spec fn spec_plus_seconds(self, seconds: u32) -> Timestamp {
        if seconds == 0 {
            self
        } else if self.spec_nanos() >= NANOS_PER_SEC {
            Timestamp::from_parts(self.spec_secs() + seconds, self.spec_nanos() - NANOS_PER_SEC)
        } else {
            Timestamp::from_parts(self.spec_secs() + seconds, self.spec_nanos() as int)
        }
    }

    /// The instant `seconds` later.
    pub fn plus_seconds(self, seconds: u32) -> (res: Timestamp)
        requires
            self.spec_secs() + seconds <= MAX_TIMESTAMP_SECS,
        ensures
            res == self.spec_plus_seconds(seconds),
            seconds > 0 ==> res.spec_secs() == self.spec_secs() + seconds,
    {
        proof {
            use_type_invariant(self);
        }
        if seconds == 0 {
            self
        } else if self.nanos >= NANOS_PER_SEC {
            Timestamp { secs: self.secs + seconds as i64, nanos: self.nanos - NANOS_PER_SEC }
        } else {
            Timestamp { secs: self.secs + seconds as i64, nanos: self.nanos }
        }
    }
}

/// Instants are ordered in time: an earlier second comes first whatever the
/// nanoseconds, a later second never comes first, and within one second the
/// nanoseconds decide. The order is reflexive, antisymmetric, transitive and total.
pub proof fn lemma_chronological_order(a: Timestamp, b: Timestamp, c: Timestamp)
    ensures
        a.spec_secs() < b.spec_secs() ==> a.spec_le(b),
        a.spec_secs() > b.spec_secs() ==> !a.spec_le(b),
        a.spec_secs() == b.spec_secs() ==> (a.spec_le(b) <==> a.spec_nanos() <= b.spec_nanos()),
        a.spec_le(a),
        a.spec_le(b) && b.spec_le(a) ==> a == b,
        a.spec_le(b) && b.spec_le(c) ==> a.spec_le(c),
        a.spec_le(b) || b.spec_le(a),
{
}

/// Whether `secs` is the last second of a minute (`secs` mod 60 is 59).
fn last_second_of_minute(secs: i64) -> (res: bool)
    ensures
        res == (secs % 60 == 59),
{
    if secs >= 0 {
        (secs as u64) % 60 == 59
    } else {
        let before: u64 = (-(secs + 1)) as u64;
        assert(secs % 60 == 59 <==> before % 60 == 0) by (nonlinear_arith)
            requires
                secs < 0,
                before == -(secs + 1),
        {
        }
        before % 60 == 0
    }
}

} // verus!
