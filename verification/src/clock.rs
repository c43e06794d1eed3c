use vstd::prelude::*;

use time::{SignedDuration, Timestamp};

verus! {

/// A point in time that a `time::Timestamp` can hold: whole seconds since
/// the Unix epoch and the nanoseconds past that second, and whether it was
/// read from the clock (rather than made from a given second).
#[derive(Debug, Clone, Copy, PartialEq, Eq)]
pub struct Moment {
    seconds: i64,
    nanoseconds: u32,
    from_clock: bool,
}

/// Whether `time::Timestamp::from_seconds` accepts this number of seconds,
/// that is whether it lies in the range of a `time::Timestamp`.
pub uninterp spec fn timestamp_accepts_seconds(seconds: int) -> bool;

/// The text that `Display` of `time::SignedDuration::new(seconds, nanoseconds)` writes.
pub uninterp spec fn signed_duration_text(seconds: int, nanoseconds: int) -> Seq<char>;

/// A bound on the seconds of any `time::Timestamp`, which covers years up to
/// a million away from the epoch whichever of the crate's date ranges is built.
pub open spec fn seconds_bound() -> int {
    100_000_000_000_000
}

impl Moment {
    /// A moment always stands for a valid timestamp.
    #[verifier::type_invariant]
    closed spec fn valid(self) -> bool {
        &&& self.nanoseconds < 1_000_000_000
        &&& timestamp_accepts_seconds(self.seconds as int)
        &&& -seconds_bound() <= self.seconds <= seconds_bound()
    }

    /// Whole seconds since the Unix epoch.
    pub closed spec fn secs(self) -> int {
        self.seconds as int
    }

    /// Nanoseconds past the whole second.
    pub closed spec fn nanos(self) -> nat {
        self.nanoseconds as nat
    }

    /// Whether this moment is a reading of the clock.
    pub closed spec fn read_from_clock(self) -> bool {
        self.from_clock
    }

    /// A clock reading at a whole second, with no nanoseconds.
    pub closed spec fn reading_at(seconds: int) -> Moment {
        Moment { seconds: seconds as i64, nanoseconds: 0, from_clock: true }
    }

    /// The moment at a whole second, with no nanoseconds.
    pub closed spec fn at(seconds: int) -> Moment {
        Moment { seconds: seconds as i64, nanoseconds: 0, from_clock: false }
    }

    pub fn seconds(&self) -> (r: i64)
        ensures
            r == self.secs(),
            timestamp_accepts_seconds(r as int),
            -seconds_bound() <= r <= seconds_bound(),
    {
        proof {
            use_type_invariant(self);
        }
        self.seconds
    }

    pub fn nanoseconds(&self) -> (r: u32)
        ensures
            r == self.nanos(),
            r < 1_000_000_000,
    {
        proof {
            use_type_invariant(self);
        }
        self.nanoseconds
    }

    /// The moment at a whole second, where a timestamp can hold it.
    pub fn at_second(seconds: i64) -> (r: Option<Moment>)
        ensures
            r is Some <==> timestamp_accepts_seconds(seconds as int),
            r matches Some(m) ==> m == Moment::at(seconds as int),
    {
        moment_at_seconds(seconds)
    }

    /// The current moment: a reading of the clock. Nothing is promised of
    /// which moment it is.
    pub fn now() -> (m: Moment)
        ensures
            m.read_from_clock(),
    {
        current_moment()
    }
}

/// The moment at a whole second holds that second and no nanoseconds.
pub proof fn lemma_moment_at(seconds: int)
    requires
        i64::MIN <= seconds <= i64::MAX,
    ensures
        Moment::at(seconds).secs() == seconds,
        Moment::at(seconds).nanos() == 0,
{
}

/// A clock reading at a whole second is a clock reading.
pub proof fn lemma_reading_at(seconds: int)
    ensures
        Moment::reading_at(seconds).read_from_clock(),
{
}

/// The seconds of a moment fit an `i64`.
pub proof fn lemma_moment_seconds_fit(m: Moment)
    ensures
        i64::MIN <= m.secs() <= i64::MAX,
{
}

/// Chronological order of two moments, as `time::Timestamp` compares them.
pub open spec fn moment_after(a: Moment, b: Moment) -> bool {
    a.secs() > b.secs() || (a.secs() == b.secs() && a.nanos() > b.nanos())
}

/// The seconds and nanoseconds that `a - b` on `time::Timestamp` hands to
/// `time::SignedDuration::new`.
pub open spec fn moment_difference(a: Moment, b: Moment) -> (int, int) {
    let seconds = a.secs() - b.secs();
    let nanoseconds = a.nanos() - b.nanos();
    if nanoseconds < 0 {
        (seconds - 1, nanoseconds + 1_000_000_000)
    } else {
        (seconds, nanoseconds)
    }
}

/// The text of the time left from `now` until `until`.
pub open spec fn time_left_text(until: Moment, now: Moment) -> Seq<char> {
    signed_duration_text(moment_difference(until, now).0, moment_difference(until, now).1)
}

/// Reads the clock through `time::Timestamp::now`. Claimed: the result is a
/// valid timestamp (nanoseconds below one second, seconds in the type's
/// range), which the type invariant of `Moment` carries, and is marked as a
/// clock reading. Nothing is claimed of which moment it is.
#[verifier::external_body]
fn current_moment() -> (m: Moment)
    ensures
        m.read_from_clock(),
{
    let now = Timestamp::now();
    Moment { seconds: now.as_seconds(), nanoseconds: now.nanosecond(), from_clock: true }
}

/// Calls `time::Timestamp::from_seconds`. Claimed: it succeeds exactly when
/// the seconds are in the timestamp range (named `timestamp_accepts_seconds`),
/// which lies within `seconds_bound()`, and then stands for that second with
/// no nanoseconds.
#[verifier::external_body]
fn moment_at_seconds(seconds: i64) -> (r: Option<Moment>)
    ensures
        r is Some <==> timestamp_accepts_seconds(seconds as int),
        r matches Some(m) ==> m == Moment::at(seconds as int),
{
    match Timestamp::from_seconds(seconds) {
        Ok(t) => Some(Moment { seconds: t.as_seconds(), nanoseconds: t.nanosecond(), from_clock: false }),
        Err(_) => None,
    }
}

/// Formats `time::SignedDuration::new(seconds, nanoseconds)` with its
/// `Display` impl. Claimed: the text is a function of the two arguments
/// (named `signed_duration_text`). Below one second of nanoseconds the
/// constructor cannot overflow.
#[verifier::external_body]
fn signed_duration_to_string(seconds: i64, nanoseconds: i32) -> (s: String)
    requires
        -1_000_000_000 < nanoseconds < 1_000_000_000,
    ensures
        s@ == signed_duration_text(seconds as int, nanoseconds as int),
{
    SignedDuration::new(seconds, nanoseconds).to_string()
}

/// Whether `a` comes after `b`.
pub fn is_after(a: Moment, b: Moment) -> (r: bool)
    ensures
        r == moment_after(a, b),
{
    a.seconds() > b.seconds() || (a.seconds() == b.seconds() && a.nanoseconds() > b.nanoseconds())
}

/// The text of how long it is from `now` until `until`, as `time` writes the
/// difference of two timestamps.
pub fn time_left(until: Moment, now: Moment) -> (s: String)
    ensures
        s@ == time_left_text(until, now),
{
    let seconds: i64 = until.seconds() - now.seconds();
    let nanoseconds: i32 = until.nanoseconds() as i32 - now.nanoseconds() as i32;
    if nanoseconds < 0 {
        signed_duration_to_string(seconds - 1, nanoseconds + 1_000_000_000)
    } else {
        signed_duration_to_string(seconds, nanoseconds)
    }
}

} // verus!
