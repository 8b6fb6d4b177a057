//! Instants and the spans between them.
//!
//! An instant is modelled by the integer count of nanoseconds since the Unix
//! epoch; contracts speak of that count. Client and server instants are kept
//! in two distinct types so that one cannot stand where the other is meant.

use crate::protocol::Time;
use vstd::prelude::*;

verus! {

/// Nanoseconds in one second.
pub const NANOS_PER_SEC: i128 = 1_000_000_000;

/// Nanoseconds in one millisecond.
pub const NANOS_PER_MILLI: i128 = 1_000_000;

/// A length of media time in whole milliseconds: a playback position or the
/// amount of media buffered ahead of it. Negative spans are allowed.
#[derive(Debug, Clone, Copy, PartialEq, Eq, Structural)]
pub struct MediaSpan(pub i64);

/// The `i64` nearest to `n`.
pub open spec fn clamp_i64(n: int) -> i64 {
    if n < i64::MIN {
        i64::MIN
    } else if n > i64::MAX {
        i64::MAX
    } else {
        n as i64
    }
}

/// The quotient of `x` by a positive `d`, rounded toward zero.
pub open spec fn div_toward_zero(x: int, d: int) -> int {
    if x >= 0 {
        x / d
    } else {
        -((-x) / d)
    }
}

impl MediaSpan {
    /// This span lengthened by `millis`, held within the range of `i64`.
    pub open spec fn spec_plus(self, millis: int) -> MediaSpan {
        MediaSpan(clamp_i64(self.0 + millis))
    }

    /// Lengthens the span by `other`; the sum saturates at the bounds of `i64`.
    pub fn plus(self, other: MediaSpan) -> (sum: MediaSpan)
        ensures
            sum == self.spec_plus(other.0 as int),
    {
        let wide: i128 = self.0 as i128 + other.0 as i128;
        if wide < i64::MIN as i128 {
            MediaSpan(i64::MIN)
        } else if wide > i64::MAX as i128 {
            MediaSpan(i64::MAX)
        } else {
            MediaSpan(wide as i64)
        }
    }
}

/// A signed span of time in nanoseconds.
#[derive(Debug, Clone, Copy, PartialEq, Eq, Structural)]
pub struct Elapsed {
    pub nanos: i128,
}

impl Elapsed {
    /// The whole milliseconds in a span of `nanos` nanoseconds, rounded
    /// toward zero and held within the range of `i64`.
    pub open spec fn millis_of(nanos: int) -> i64 {
        clamp_i64(div_toward_zero(nanos, 1_000_000))
    }

    /// The number of whole milliseconds in the span.
    pub fn num_milliseconds(&self) -> (millis: i64)
        ensures
            millis == Self::millis_of(self.nanos as int),
    {
        // The divisor is not zero, so there always is a quotient.
        let whole: i128 = match self.nanos.checked_div(NANOS_PER_MILLI) {
            Some(q) => q,
            None => 0,
        };
        if whole < i64::MIN as i128 {
            i64::MIN
        } else if whole > i64::MAX as i128 {
            i64::MAX
        } else {
            whole as i64
        }
    }
}

/// The media span that covers `nanos` nanoseconds of wall-clock time.
pub open spec fn span_of(nanos: int) -> MediaSpan {
    MediaSpan(Elapsed::millis_of(nanos))
}

/// Turns a span of wall-clock time into a span of media time.
pub fn to_span(elapsed: Elapsed) -> (span: MediaSpan)
    ensures
        span == span_of(elapsed.nanos as int),
{
    MediaSpan(elapsed.num_milliseconds())
}

/// An absolute instant: whole seconds since the Unix epoch and the
/// nanoseconds that follow that second. Every pair of numbers is an instant;
/// where `nanos` amounts to a second or more, the instant simply lies that
/// much after the second `secs`.
#[derive(Debug, Clone, Copy, PartialEq, Eq, Structural)]
pub struct Timestamp {
    pub secs: i64,
    pub nanos: u32,
}

impl View for Timestamp {
    type V = int;

    /// Nanoseconds since the Unix epoch.
    open spec fn view(&self) -> int {
        self.secs * 1_000_000_000 + self.nanos
    }
}

impl Timestamp {
    /// The earliest instant a `Timestamp` can hold.
    pub open spec fn earliest() -> int {
        i64::MIN * 1_000_000_000
    }

    /// The latest instant a `Timestamp` can hold.
    pub open spec fn latest() -> int {
        i64::MAX * 1_000_000_000 + u32::MAX
    }

    /// The instant nearest to `nanos` that a `Timestamp` can hold.
    pub open spec fn saturate(nanos: int) -> int {
        if nanos < Self::earliest() {
            Self::earliest()
        } else if nanos > Self::latest() {
            Self::latest()
        } else {
            nanos
        }
    }

    /// Nanoseconds since the Unix epoch.
    pub fn nanos_since_epoch(&self) -> (n: i128)
        ensures
            n == self@,
    {
        self.secs as i128 * NANOS_PER_SEC + self.nanos as i128
    }

    /// The instant `n` nanoseconds after the epoch, or the nearest one that
    /// can be held.
    pub fn from_nanos(n: i128) -> (t: Timestamp)
        ensures
            t@ == Self::saturate(n as int),
    {
        let low: i128 = i64::MIN as i128 * NANOS_PER_SEC;
        let high: i128 = i64::MAX as i128 * NANOS_PER_SEC + u32::MAX as i128;
        if n < low {
            Timestamp { secs: i64::MIN, nanos: 0 }
        } else if n > high {
            Timestamp { secs: i64::MAX, nanos: u32::MAX }
        } else {
            // The divisor is not zero, so there always is a quotient.
            let whole: i128 = match n.checked_div_euclid(NANOS_PER_SEC) {
                Some(q) => q,
                None => 0,
            };
            if whole > i64::MAX as i128 {
                let rest: i128 = n - i64::MAX as i128 * NANOS_PER_SEC;
                Timestamp { secs: i64::MAX, nanos: rest as u32 }
            } else {
                let rest: i128 = n - whole * NANOS_PER_SEC;
                Timestamp { secs: whole as i64, nanos: rest as u32 }
            }
        }
    }

    /// The span from `earlier` to this instant; negative when this instant
    /// comes first.
    pub fn since(&self, earlier: &Timestamp) -> (elapsed: Elapsed)
        ensures
            elapsed.nanos == self@ - earlier@,
    {
        Elapsed { nanos: self.nanos_since_epoch() - earlier.nanos_since_epoch() }
    }

    /// The instant `elapsed` after this one, or the nearest one that can be
    /// held.
    pub fn plus(&self, elapsed: Elapsed) -> (t: Timestamp)
        ensures
            t@ == Self::saturate(self@ + elapsed.nanos),
    {
        let reach: i128 = 40_000_000_000_000_000_000_000_000_000;
        if elapsed.nanos > reach {
            Timestamp { secs: i64::MAX, nanos: u32::MAX }
        } else if elapsed.nanos < -reach {
            Timestamp { secs: i64::MIN, nanos: 0 }
        } else {
            Self::from_nanos(self.nanos_since_epoch() + elapsed.nanos)
        }
    }
}

/// An instant read from a client's clock, not yet converted into the
/// server's time.
#[derive(Debug, Clone, Copy, PartialEq, Eq, Structural)]
pub struct ClientTime(pub Timestamp);

impl View for ClientTime {
    type V = int;

    /// Nanoseconds since the Unix epoch on the client's clock.
    open spec fn view(&self) -> int {
        self.0@
    }
}

/// An instant on the server's clock.
#[derive(Debug, Clone, Copy, PartialEq, Eq, Structural)]
pub struct ServerTime(pub Timestamp);

impl View for ServerTime {
    type V = int;

    /// Nanoseconds since the Unix epoch on the server's clock.
    open spec fn view(&self) -> int {
        self.0@
    }
}

/// The instant that a wire time of `millis` milliseconds denotes, in
/// nanoseconds since the epoch.
pub open spec fn instant_of(millis: int) -> int {
    millis * 1_000_000
}

/// Turns a wire time into an instant: the seconds are the milliseconds
/// divided by a thousand and rounded down, the nanoseconds are the remaining
/// milliseconds times a million.
pub fn convert_time(time: Time) -> (t: Timestamp)
    ensures
        t.secs == time.0 as int / 1000,
        t.nanos == (time.0 as int % 1000) * 1_000_000,
        t@ == instant_of(time.0 as int),
{
    // The divisor is not zero, so there always are a quotient and a remainder.
    let secs: i64 = match time.0.checked_div_euclid(1000) {
        Some(q) => q,
        None => 0,
    };
    let millis: i64 = match time.0.checked_rem_euclid(1000) {
        Some(r) => r,
        None => 0,
    };
    Timestamp { secs, nanos: (millis * 1_000_000) as u32 }
}

/// Reads the server's wall clock with `chrono::Utc::now` and takes the
/// reading apart with `DateTime::timestamp` and
/// `DateTime::timestamp_subsec_nanos`. Nothing is claimed of the instant that
/// comes back: two readings may be any two instants. `Utc::now` gives up on a
/// machine whose clock stands before the Unix epoch.
#[verifier::external_body]
pub(crate) fn wall_clock() -> (now: ServerTime) {
    let t = chrono::Utc::now();
    ServerTime(Timestamp { secs: t.timestamp(), nanos: t.timestamp_subsec_nanos() })
}

} // verus!
