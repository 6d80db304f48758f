//! Timestamps and spans of time on the player's monotonic nanosecond clock.
use vstd::prelude::*;
use core::cmp::Ordering;
use vstd::std_specs::cmp::PartialOrdSpecImpl;
use vstd::std_specs::cmp::PartialOrdSpec;

verus! {

/// Nanoseconds in one microsecond.
pub const NANOS_PER_MICRO: u64 = 1000;

/// Nanoseconds in one millisecond.
pub const NANOS_PER_MILLI: u64 = 1_000_000;

/// Nanoseconds in one second.
pub const NANOS_PER_SEC: u64 = 1_000_000_000;

/// One more than `u64::MAX`: the modulus of a wrapping conversion to `u64`.
pub open spec fn u64_modulus() -> nat {
    0x1_0000_0000_0000_0000
}

/// Name for what `std::time::Duration::as_nanos` returns: the total number of
/// whole nanoseconds that the span holds.
pub uninterp spec fn std_duration_as_nanos(d: core::time::Duration) -> u128;

/// Calls `std::time::Duration::as_nanos`. Trusted: the result is the name above
/// applied to the argument, and nothing more is claimed of it here.
#[verifier::external_body]
fn std_as_nanos(d: &core::time::Duration) -> (r: u128)
    ensures
        r == std_duration_as_nanos(*d),
{
    d.as_nanos()
}

/// Calls `std::time::Duration::from_nanos`. Trusted: the documentation states that
/// the span is exactly `nanos` nanoseconds long, so `as_nanos` of it gives `nanos` back.
#[verifier::external_body]
fn std_from_nanos(nanos: u64) -> (r: core::time::Duration)
    ensures
        std_duration_as_nanos(r) == nanos,
{
    core::time::Duration::from_nanos(nanos)
}

/// The elapsed span from `earlier` to `later` on the clock, if `later` is not before `earlier`.
pub open spec fn spec_span_between(later: u64, earlier: u64) -> Option<u64> {
    if earlier <= later {
        Some((later - earlier) as u64)
    } else {
        None
    }
}

/// The nanosecond counts of an optional span.
pub open spec fn span_view(r: Option<Duration>) -> Option<u64> {
    match r {
        Some(d) => Some(d@),
        None => None,
    }
}

/// A measurement of the player's monotonically nondecreasing nanosecond clock.
///
/// An instant only has meaning relative to another instant taken from the same
/// player context; its raw value is an arbitrary offset.
#[derive(Clone, Copy, Debug, Hash, PartialEq, Eq, Structural, Ord)]
pub struct Instant {
    nanos: u64,
}

impl View for Instant {
    type V = u64;

    closed spec fn view(&self) -> u64 {
        self.nanos
    }
}

/// A positive span of real time measured in nanoseconds.
#[derive(Clone, Copy, Debug, Hash, PartialEq, Eq, Structural, Ord)]
pub struct Duration {
    delta: u64,
}

impl View for Duration {
    type V = u64;

    closed spec fn view(&self) -> u64 {
        self.delta
    }
}

/// Error of converting a `std::time::Duration` whose nanosecond count does not fit in 64 bits.
#[derive(Clone, Copy, Debug, PartialEq, Eq, Structural)]
pub struct TryFromStdError;

impl TryFromStdError {
    /// The human-readable description of the error.
    pub fn message(&self) -> (r: &'static str)
        ensures
            r@ == "Overflow while converting an std Duration to a mpv Duration"@,
    {
        "Overflow while converting an std Duration to a mpv Duration"
    }
}

/// Checks a raw clock reading that the player reports: it must be positive.
pub fn assume_positive_instant(x: i64) -> (r: u64)
    requires
        x > 0,
    ensures
        r == x,
{
    x as u64
}

impl Instant {
    /// Creates an instant from an internal nanosecond timestamp.
    pub fn from_timestamp_nanos(nanos: u64) -> (r: Self)
        ensures
            r@ == nanos,
    {
        Instant { nanos }
    }

    /// Creates an instant from an internal microsecond timestamp.
    /// The timestamp in nanoseconds must fit in 64 bits.
    pub fn from_timestamp_micros(us: u64) -> (r: Self)
        requires
            us * NANOS_PER_MICRO <= u64::MAX,
        ensures
            r@ == us * NANOS_PER_MICRO,
    {
        Instant { nanos: us * NANOS_PER_MICRO }
    }

    /// The internal timestamp of the instant in nanoseconds.
    pub fn timestamp_nanos(self) -> (r: u64)
        ensures
            r == self@,
    {
        self.nanos
    }

    /// The internal timestamp of the instant in whole microseconds.
    pub fn timestamp_micros(self) -> (r: u64)
        ensures
            r == self@ / NANOS_PER_MICRO,
    {
        self.nanos / NANOS_PER_MICRO
    }

    /// The span of time that has passed since `past`; `None` if `self` is before `past`.
    pub fn checked_duration_since(self, past: Self) -> (r: Option<Duration>)
        ensures
            r is Some <==> past@ <= self@,
            r matches Some(d) ==> d@ == self@ - past@,
            span_view(r) == spec_span_between(self@, past@),
    {
        match self.nanos.checked_sub(past.nanos) {
            Some(delta) => Some(Duration::from_nanos(delta)),
            None => None,
        }
    }

    /// The span of time that has passed since `past`, which must not be after `self`.
    pub fn duration_since(self, past: Self) -> (r: Duration)
        requires
            past@ <= self@,
        ensures
            r@ == self@ - past@,
    {
        match self.checked_duration_since(past) {
            Some(d) => d,
            None => Duration::from_nanos(0),
        }
    }

    /// The span of time that needs to pass to reach `future`; `None` if `self` is after `future`.
    pub fn checked_time_until(self, future: Self) -> (r: Option<Duration>)
        ensures
            r is Some <==> self@ <= future@,
            r matches Some(d) ==> d@ == future@ - self@,
            span_view(r) == spec_span_between(future@, self@),
    {
        future.checked_duration_since(self)
    }

    /// The span of time that needs to pass to reach `future`, which must not be before `self`.
    pub fn time_until(self, future: Self) -> (r: Duration)
        requires
            self@ <= future@,
        ensures
            r@ == future@ - self@,
    {
        future.duration_since(self)
    }
}

impl Default for Duration {
    fn default() -> (r: Self)
        ensures
            r@ == 0,
    {
        Duration { delta: 0 }
    }
}

impl Duration {
    /// Creates a span of `delta` nanoseconds.
    pub fn from_nanos(delta: u64) -> (r: Duration)
        ensures
            r@ == delta,
    {
        Duration { delta }
    }

    /// Creates a span of `secs` seconds.
    pub fn from_secs(secs: u32) -> (r: Duration)
        ensures
            r@ == secs * NANOS_PER_SEC,
    {
        assert(secs * NANOS_PER_SEC <= u64::MAX) by (nonlinear_arith)
            requires
                secs <= u32::MAX,
        ;
        Duration { delta: secs as u64 * NANOS_PER_SEC }
    }

    /// Creates a span of `micros` microseconds.
    pub fn from_micros(micros: u32) -> (r: Duration)
        ensures
            r@ == micros * NANOS_PER_MICRO,
    {
        assert(micros * NANOS_PER_MICRO <= u64::MAX) by (nonlinear_arith)
            requires
                micros <= u32::MAX,
        ;
        Duration { delta: micros as u64 * NANOS_PER_MICRO }
    }

    /// Creates a span of `millis` milliseconds.
    pub fn from_millis(millis: u32) -> (r: Duration)
        ensures
            r@ == millis * NANOS_PER_MILLI,
    {
        assert(millis * NANOS_PER_MILLI <= u64::MAX) by (nonlinear_arith)
            requires
                millis <= u32::MAX,
        ;
        Duration { delta: millis as u64 * NANOS_PER_MILLI }
    }

    /// Converts a `std::time::Duration`, failing when its nanosecond count does not fit in 64 bits.
    pub fn try_from_std(std: core::time::Duration) -> (r: Result<Self, TryFromStdError>)
        ensures
            r is Ok <==> std_duration_as_nanos(std) <= u64::MAX,
            r matches Ok(d) ==> d@ == std_duration_as_nanos(std),
    {
        let nanos = std_as_nanos(&std);
        if nanos > u64::MAX as u128 {
            Err(TryFromStdError)
        } else {
            Ok(Self::wrapping_from_std(std))
        }
    }

    /// Converts a `std::time::Duration`, keeping only the low 64 bits of its nanosecond count.
    pub fn wrapping_from_std(std: core::time::Duration) -> (r: Self)
        ensures
            r@ == std_duration_as_nanos(std) as nat % u64_modulus(),
    {
        let nanos = std_as_nanos(&std);
        let delta = nanos as u64;
        assert(delta == nanos % 0x1_0000_0000_0000_0000) by (bit_vector)
            requires
                delta == nanos as u64,
        ;
        Duration { delta }
    }

    /// Converts into a `std::time::Duration` of the same length.
    pub fn into_std(self) -> (r: core::time::Duration)
        ensures
            std_duration_as_nanos(r) == self@,
    {
        std_from_nanos(self.delta)
    }

    /// The length of the span in nanoseconds.
    pub fn as_nanos(self) -> (r: u64)
        ensures
            r == self@,
    {
        self.delta
    }

    /// The number of whole seconds in the span.
    pub fn as_secs(self) -> (r: u64)
        ensures
            r == self@ / NANOS_PER_SEC,
    {
        self.delta / NANOS_PER_SEC
    }

    /// The number of whole milliseconds in the span.
    pub fn as_millis(self) -> (r: u64)
        ensures
            r == self@ / NANOS_PER_MILLI,
    {
        self.delta / NANOS_PER_MILLI
    }

    /// The number of whole microseconds in the span.
    pub fn as_micros(self) -> (r: u64)
        ensures
            r == self@ / NANOS_PER_MICRO,
    {
        self.delta / NANOS_PER_MICRO
    }
}

/// Adding the span that `checked_duration_since(later, earlier)` reports back onto `earlier`
/// gives `later`; the span exists exactly when `earlier` is not after `later`.
pub proof fn law_span_undoes_subtraction(later: Instant, earlier: Instant)
    ensures
        spec_span_between(later@, earlier@) is Some <==> earlier@ <= later@,
        spec_span_between(later@, earlier@) matches Some(d) ==> earlier@ + d == later@,
{
}

/// The span from an instant to itself is empty, and spans in both directions
/// between two instants exist only when the instants are equal.
pub proof fn law_span_reflexive_antisymmetric(a: Instant, b: Instant)
    ensures
        spec_span_between(a@, a@) == Some(0u64),
        (spec_span_between(a@, b@) is Some && spec_span_between(b@, a@) is Some) <==> a@ == b@,
{
}

/// Spans add up along three instants in order: the span from `a` to `c` is the span
/// from `a` to `b` plus the span from `b` to `c`.
pub proof fn law_span_additive(a: Instant, b: Instant, c: Instant)
    requires
        a@ <= b@,
        b@ <= c@,
    ensures
        spec_span_between(c@, a@) matches Some(ac) && spec_span_between(b@, a@) matches Some(ab)
            && spec_span_between(c@, b@) matches Some(bc) && ac == ab + bc,
{
}

/// Converting a span into a `std::time::Duration` and back, by either the checked or the
/// wrapping conversion, gives the same span.
pub proof fn law_std_roundtrip(d: Duration, s: core::time::Duration)
    requires
        std_duration_as_nanos(s) == d@,
    ensures
        std_duration_as_nanos(s) <= u64::MAX,
        std_duration_as_nanos(s) as nat % u64_modulus() == d@,
{
}

/// An instant made from a microsecond timestamp reports that timestamp back.
pub proof fn law_micros_roundtrip(us: u64)
    requires
        us * NANOS_PER_MICRO <= u64::MAX,
    ensures
        (us * NANOS_PER_MICRO) / (NANOS_PER_MICRO as int) == us,
{
}

/// A span made from whole seconds, milliseconds or microseconds reports the same count
/// back in that unit.
pub proof fn law_unit_roundtrip(n: u32)
    ensures
        (n * NANOS_PER_SEC) / (NANOS_PER_SEC as int) == n,
        (n * NANOS_PER_MILLI) / (NANOS_PER_MILLI as int) == n,
        (n * NANOS_PER_MICRO) / (NANOS_PER_MICRO as int) == n,
{
}

/// The order of two nanosecond counts.
pub open spec fn order_of(a: u64, b: u64) -> Option<Ordering> {
    if a < b {
        Some(Ordering::Less)
    } else if a > b {
        Some(Ordering::Greater)
    } else {
        Some(Ordering::Equal)
    }
}

impl PartialOrd for Instant {
    fn partial_cmp(&self, other: &Self) -> (r: Option<Ordering>) {
        if self.nanos < other.nanos {
            Some(Ordering::Less)
        } else if self.nanos > other.nanos {
            Some(Ordering::Greater)
        } else {
            Some(Ordering::Equal)
        }
    }
}

impl PartialOrdSpecImpl for Instant {
    open spec fn obeys_partial_cmp_spec() -> bool {
        true
    }

    open spec fn partial_cmp_spec(&self, other: &Self) -> Option<Ordering> {
        order_of(self@, other@)
    }
}

impl PartialOrd for Duration {
    fn partial_cmp(&self, other: &Self) -> (r: Option<Ordering>) {
        if self.delta < other.delta {
            Some(Ordering::Less)
        } else if self.delta > other.delta {
            Some(Ordering::Greater)
        } else {
            Some(Ordering::Equal)
        }
    }
}

impl PartialOrdSpecImpl for Duration {
    open spec fn obeys_partial_cmp_spec() -> bool {
        true
    }

    open spec fn partial_cmp_spec(&self, other: &Self) -> Option<Ordering> {
        order_of(self@, other@)
    }
}

/// Instants order as their timestamps: an instant made from an earlier timestamp is
/// earlier, and one made from the same timestamp is equal.
pub proof fn law_instants_order_as_timestamps(a: Instant, b: Instant)
    ensures
        PartialOrdSpec::partial_cmp_spec(&a, &b) == order_of(a@, b@),
        (PartialOrdSpec::partial_cmp_spec(&a, &b) == Some(Ordering::Less)) <==> a@ < b@,
        (PartialOrdSpec::partial_cmp_spec(&a, &b) matches Some(Ordering::Less | Ordering::Equal)) <==> a@ <= b@,
        (PartialOrdSpec::partial_cmp_spec(&a, &b) == Some(Ordering::Equal)) <==> a == b,
{
}

/// Durations order as their lengths in nanoseconds.
pub proof fn law_durations_order_as_lengths(a: Duration, b: Duration)
    ensures
        PartialOrdSpec::partial_cmp_spec(&a, &b) == order_of(a@, b@),
        (PartialOrdSpec::partial_cmp_spec(&a, &b) == Some(Ordering::Less)) <==> a@ < b@,
        (PartialOrdSpec::partial_cmp_spec(&a, &b) matches Some(Ordering::Less | Ordering::Equal)) <==> a@ <= b@,
        (PartialOrdSpec::partial_cmp_spec(&a, &b) == Some(Ordering::Equal)) <==> a == b,
{
}

} // verus!
