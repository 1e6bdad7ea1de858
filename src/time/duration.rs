use vstd::prelude::*;

use super::{Timeout, TryFromDurationError};
use crate::abi::{RELTIM, TMAX_RELTIM};

verus! {

/// A valid relative time value ([`RELTIM`]), in microseconds.
#[derive(Debug, Clone, Copy, PartialEq, Eq, PartialOrd, Ord, Hash)]
pub struct Duration {
    value: RELTIM,
}

impl View for Duration {
    type V = int;

    closed spec fn view(&self) -> int {
        self.value as int
    }
}

/// The duration of `micros` microseconds, if the kernel can represent it.
pub open spec fn duration_of_micros(micros: int) -> Option<int> {
    if 0 <= micros <= TMAX_RELTIM {
        Some(micros)
    } else {
        None
    }
}

/// The span in microseconds that an optional `Duration` holds.
pub open spec fn micros_of(r: Option<Duration>) -> Option<int> {
    match r {
        Some(x) => Some(x@),
        None => None,
    }
}

impl Duration {
    #[verifier::type_invariant]
    spec fn representable(self) -> bool {
        self.value <= TMAX_RELTIM
    }

    /// The zero duration.
    pub fn zero() -> (r: Self)
        ensures
            r@ == 0,
    {
        Duration { value: 0 }
    }

    /// Construct a new `Duration` from a raw value, which must not exceed
    /// [`TMAX_RELTIM`].
    pub fn from_raw(value: RELTIM) -> (r: Self)
        requires
            value <= TMAX_RELTIM,
        ensures
            r@ == value,
    {
        Duration { value }
    }

    /// The raw value.
    pub fn as_raw(self) -> (r: RELTIM)
        ensures
            r == self@,
            r <= TMAX_RELTIM,
    {
        proof {
            use_type_invariant(self);
        }
        self.value
    }

    /// Construct a new `Duration` from the specified number of seconds.
    ///
    /// Returns `None` if the specified duration is not representable.
    pub fn from_secs(secs: u64) -> (r: Option<Self>)
        ensures
            micros_of(r) == duration_of_micros(secs as int * 1_000_000),
    {
        if secs > u64::MAX / 1_000_000 {
            None
        } else {
            Self::from_micros(secs * 1_000_000)
        }
    }

    /// Construct a new `Duration` from the specified number of milliseconds.
    ///
    /// Returns `None` if the specified duration is not representable.
    pub fn from_millis(millis: u64) -> (r: Option<Self>)
        ensures
            micros_of(r) == duration_of_micros(millis as int * 1000),
    {
        if millis > u64::MAX / 1000 {
            None
        } else {
            Self::from_micros(millis * 1000)
        }
    }

    /// Construct a new `Duration` from the specified number of microseconds.
    ///
    /// Returns `None` if the specified duration is not representable.
    pub fn from_micros(micros: u64) -> (r: Option<Self>)
        ensures
            micros_of(r) == duration_of_micros(micros as int),
    {
        if micros > TMAX_RELTIM as u64 {
            None
        } else {
            Some(Duration { value: micros as u32 })
        }
    }

    /// Construct a new `Duration` from the specified number of nanoseconds,
    /// rounded down to whole microseconds.
    ///
    /// Returns `None` if the specified duration is not representable.
    pub fn from_nanos(nanos: u128) -> (r: Option<Self>)
        ensures
            micros_of(r) == duration_of_micros(nanos as int / 1000),
    {
        let micros = nanos / 1000;
        if micros > u64::MAX as u128 {
            None
        } else {
            Self::from_micros(micros as u64)
        }
    }
}

impl core::convert::TryFrom<Timeout> for Duration {
    type Error = TryFromDurationError;

    /// Convert a finite [`Timeout`] to a `Duration`. Fails for
    /// [`Timeout::forever`].
    fn try_from(d: Timeout) -> (r: Result<Self, TryFromDurationError>)
        ensures
            r is Ok <==> d.spec_is_finite(),
            r matches Ok(x) ==> x@ == d@,
    {
        if d.is_finite() {
            Ok(Duration { value: d.as_raw() })
        } else {
            Err(TryFromDurationError(()))
        }
    }
}

impl vstd::std_specs::convert::TryFromSpecImpl<Timeout> for Duration {
    open spec fn obeys_try_from_spec() -> bool {
        true
    }

    closed spec fn try_from_spec(d: Timeout) -> Result<Self, TryFromDurationError> {
        if d.spec_is_finite() {
            Ok(Duration { value: d@ as u32 })
        } else {
            Err(TryFromDurationError(()))
        }
    }
}

/// Every microsecond count up to [`TMAX_RELTIM`] makes a `Duration` whose raw
/// value is that count, and no larger count makes one.
pub proof fn lemma_micros_round_trip(micros: u64)
    ensures
        micros <= TMAX_RELTIM ==> duration_of_micros(micros as int) == Some(micros as int),
        micros > TMAX_RELTIM ==> duration_of_micros(micros as int) is None,
{
}

/// Unwraps a `Duration` constructed with one of the checked constructors.
pub fn expect_valid_duration(x: Option<Duration>) -> (r: Duration)
    requires
        x is Some,
    ensures
        x == Some(r),
{
    match x {
        Some(d) => d,
        None => vstd::pervasive::unreached(),
    }
}

} // verus!
