//! Points in time, and the one place where the system clock is read.

use vstd::prelude::*;

verus! {

/// The number of nanoseconds in one second.
pub const NANOS_PER_SEC: u32 = 1_000_000_000;

/// A bound on every reading of the clock: its timestamp lies strictly between
/// minus this number of seconds and this number. It is 2 to the power 44.
pub const MAX_CLOCK_SECS: i64 = 17_592_186_044_416;

/// A point in time: whole seconds since the Unix epoch, and the nanoseconds
/// that have passed since that second began.
///
/// Its view is the number of nanoseconds since the epoch, so two instants are
/// ordered as their views are.
#[derive(Debug, PartialEq, Eq, Clone, Copy, Structural)]
pub struct Instant {
    secs: i64,
    nanos: u32,
}

impl View for Instant {
    type V = int;

    closed spec fn view(&self) -> int {
        self.secs * 1_000_000_000 + self.nanos
    }
}

impl Instant {
    /// The invariant of the type: the nanoseconds stay below one second.
    #[verifier::type_invariant]
    pub closed spec fn wf(self) -> bool {
        self.nanos < NANOS_PER_SEC
    }

    /// The whole seconds of an instant.
    pub closed spec fn spec_timestamp(&self) -> i64 {
        self.secs
    }

    /// The nanoseconds of an instant past its whole seconds.
    pub closed spec fn spec_subsec_nanos(&self) -> u32 {
        self.nanos
    }

    /// Whether the instant can be a reading of the clock: it is valid, and
    /// its timestamp lies within the bound on readings.
    pub open spec fn is_reading(self) -> bool {
        self.wf() && -MAX_CLOCK_SECS < self.spec_timestamp() < MAX_CLOCK_SECS
    }

    /// The instant `nanos` nanoseconds after the second `secs`, where `nanos`
    /// is less than a second.
    pub fn new(secs: i64, nanos: u32) -> (t: Option<Instant>)
        ensures
            t is Some <==> nanos < NANOS_PER_SEC,
            t matches Some(i) ==> i.wf() && i@ == secs * 1_000_000_000 + nanos
                && i.spec_timestamp() == secs && i.spec_subsec_nanos() == nanos,
    {
        if nanos < NANOS_PER_SEC {
            Some(Instant { secs, nanos })
        } else {
            None
        }
    }

    /// The instant at which the second `secs` begins.
    pub fn from_timestamp(secs: i64) -> (t: Instant)
        ensures
            t.wf(),
            t@ == secs * 1_000_000_000,
            t.spec_timestamp() == secs,
            t.spec_subsec_nanos() == 0,
    {
        Instant { secs, nanos: 0 }
    }

    /// The present moment, as the system clock gives it.
    pub fn now() -> (t: Instant)
        ensures
            t.wf(),
            t.is_reading(),
    {
        let (secs, nanos) = utc_now();
        Instant { secs, nanos }
    }

    /// The whole seconds since the Unix epoch.
    #[verifier::when_used_as_spec(spec_timestamp)]
    pub fn timestamp(&self) -> (secs: i64)
        ensures
            secs == self.spec_timestamp(),
    {
        self.secs
    }

    /// The nanoseconds since the last whole second.
    #[verifier::when_used_as_spec(spec_subsec_nanos)]
    pub fn subsec_nanos(&self) -> (nanos: u32)
        ensures
            nanos == self.spec_subsec_nanos(),
            nanos < NANOS_PER_SEC,
    {
        proof {
            use_type_invariant(self);
        }
        self.nanos
    }

    /// This instant moved by a number of seconds, or `None` where the result
    /// would lie outside the range of the type.
    pub fn checked_add_seconds(&self, seconds: i64) -> (t: Option<Instant>)
        ensures
            t is Some <==> i64::MIN <= self.spec_timestamp() + seconds <= i64::MAX,
            t matches Some(i) ==> i.wf() && i@ == self@ + seconds * 1_000_000_000
                && i.spec_timestamp() == self.spec_timestamp() + seconds
                && i.spec_subsec_nanos() == self.spec_subsec_nanos(),
    {
        proof {
            use_type_invariant(self);
        }
        match self.secs.checked_add(seconds) {
            Some(secs) => Some(Instant { secs, nanos: self.nanos }),
            None => None,
        }
    }

    /// Whether this instant is not later than `other`.
    pub fn le(&self, other: &Instant) -> (b: bool)
        ensures
            b == (self@ <= other@),
    {
        proof {
            use_type_invariant(self);
            use_type_invariant(other);
        }
        self.secs < other.secs || (self.secs == other.secs && self.nanos <= other.nanos)
    }
}

/// An instant is made of its seconds and nanoseconds, and of nothing else.
pub proof fn lemma_instant_parts(t: Instant)
    requires
        t.wf(),
    ensures
        t@ == t.spec_timestamp() * 1_000_000_000 + t.spec_subsec_nanos(),
        t.spec_subsec_nanos() < NANOS_PER_SEC,
{
}

/// Two instants at the same distance from the epoch are the same instant.
pub proof fn lemma_instant_view_injective(a: Instant, b: Instant)
    requires
        a.wf(),
        b.wf(),
        a@ == b@,
    ensures
        a == b,
{
}

/// Reads the system clock with `std::time::SystemTime::now`, turns the
/// reading into a `chrono::DateTime<Utc>` with chrono's `From<SystemTime>`, and
/// hands back its Unix timestamp and its nanoseconds past that second.
///
/// The contract claims two things of every reading. The nanoseconds stay
/// below one second: the conversion takes them from `Duration::subsec_nanos`,
/// which is less than a billion, or, for a time before the epoch, from a
/// billion less such a number that is not zero. The timestamp lies within
/// the bound: chrono holds no date outside the years from -262143 to 262142,
/// which keeps every timestamp well below 2 to the power 44 in magnitude.
/// The conversion covers times before the epoch; it gives up only on a
/// system clock that stands outside those years.
#[verifier::external_body]
fn utc_now() -> (reading: (i64, u32))
    ensures
        reading.1 < NANOS_PER_SEC,
        -MAX_CLOCK_SECS < reading.0 < MAX_CLOCK_SECS,
{
    let now = chrono::DateTime::<chrono::Utc>::from(std::time::SystemTime::now());
    (now.timestamp(), now.timestamp_subsec_nanos())
}

} // verus!
