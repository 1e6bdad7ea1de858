use vstd::prelude::*;

use super::Duration;
use crate::abi::{TMAX_RELTIM, TMO, TMO_FEVR, TMO_POL};

verus! {

/// A valid timeout value ([`TMO`]), in microseconds.
///
/// In addition to finite durations, this type can represent the following
/// special values: [`zero`] indicating zero or polling and [`forever`]
/// representing an infinite duration. **`TMO_NBLK` is not a valid value for
/// this type.**
///
/// [`zero`]: Self::zero
/// [`forever`]: Self::forever
#[derive(Debug, Clone, Copy, PartialEq, Eq, PartialOrd, Ord, Hash)]
pub struct Timeout {
    value: TMO,
}

impl View for Timeout {
    type V = int;

    closed spec fn view(&self) -> int {
        self.value as int
    }
}

/// A raw value that [`Timeout`] may hold: a finite span the kernel can
/// represent, or `TMO_FEVR`.
pub open spec fn valid_timeout(value: int) -> bool {
    (0 <= value <= TMAX_RELTIM) || value == TMO_FEVR
}

/// The timeout of `micros` microseconds, if the kernel can represent it as a
/// finite span.
pub open spec fn timeout_of_micros(micros: int) -> Option<int> {
    if 0 <= micros <= TMAX_RELTIM {
        Some(micros)
    } else {
        None
    }
}

/// The error type returned when a checked duration conversion fails.
#[derive(Debug, Clone, Copy, PartialEq, Eq)]
pub struct TryFromDurationError(pub(crate) ());

/// The span in microseconds that an optional `Timeout` holds.
pub open spec fn micros_of(r: Option<Timeout>) -> Option<int> {
    match r {
        Some(x) => Some(x@),
        None => None,
    }
}

impl Timeout {
    #[verifier::type_invariant]
    spec fn valid(self) -> bool {
        valid_timeout(self.value as int)
    }

    /// The timeout is not [`Self::forever`].
    pub open spec fn spec_is_finite(self) -> bool {
        self@ != TMO_FEVR
    }

    /// The zero timeout value, which causes polling.
    pub fn zero() -> (r: Self)
        ensures
            r@ == TMO_POL,
    {
        Timeout { value: TMO_POL }
    }

    /// The infinite timeout value.
    pub fn forever() -> (r: Self)
        ensures
            r@ == TMO_FEVR,
    {
        Timeout { value: TMO_FEVR }
    }

    /// Construct a new `Timeout` from a raw value, which must be a valid
    /// timeout value. The kernel's `E_PAR` for an invalid timeout is a
    /// critical error.
    pub fn from_raw(value: TMO) -> (r: Self)
        requires
            valid_timeout(value as int),
        ensures
            r@ == value,
    {
        Timeout { value }
    }

    /// The raw value.
    pub fn as_raw(self) -> (r: TMO)
        ensures
            r == self@,
            valid_timeout(r as int),
    {
        proof {
            use_type_invariant(self);
        }
        self.value
    }

    /// Whether the timeout is finite.
    pub fn is_finite(self) -> (r: bool)
        ensures
            r == self.spec_is_finite(),
    {
        self.value != TMO_FEVR
    }

    /// Construct a new `Timeout` from the specified number of seconds.
    ///
    /// Returns `None` if the specified duration is not representable.
    pub fn from_secs(secs: u64) -> (r: Option<Self>)
        ensures
            micros_of(r) == timeout_of_micros(secs as int * 1_000_000),
    {
        if secs > u64::MAX / 1_000_000 {
            None
        } else {
            Self::from_micros(secs * 1_000_000)
        }
    }

    /// Construct a new `Timeout` from the specified number of milliseconds.
    ///
    /// Returns `None` if the specified duration is not representable.
    pub fn from_millis(millis: u64) -> (r: Option<Self>)
        ensures
            micros_of(r) == timeout_of_micros(millis as int * 1000),
    {
        if millis > u64::MAX / 1000 {
            None
        } else {
            Self::from_micros(millis * 1000)
        }
    }

    /// Construct a new `Timeout` from the specified number of microseconds.
    ///
    /// Returns `None` if the specified duration is not representable.
    pub fn from_micros(micros: u64) -> (r: Option<Self>)
        ensures
            micros_of(r) == timeout_of_micros(micros as int),
    {
        if micros > TMAX_RELTIM as u64 {
            None
        } else {
            Some(Timeout { value: micros as u32 })
        }
    }

    /// Construct a new `Timeout` from the specified number of nanoseconds,
    /// rounded down to whole microseconds.
    ///
    /// Returns `None` if the specified duration is not representable.
    pub fn from_nanos(nanos: u128) -> (r: Option<Self>)
        ensures
            micros_of(r) == timeout_of_micros(nanos as int / 1000),
    {
        let micros = nanos / 1000;
        if micros > u64::MAX as u128 {
            None
        } else {
            Self::from_micros(micros as u64)
        }
    }
}

impl core::convert::TryFrom<Duration> for Timeout {
    type Error = TryFromDurationError;

    /// Convert a [`Duration`] to a `Timeout`; this never fails.
    fn try_from(d: Duration) -> (r: Result<Self, TryFromDurationError>)
        ensures
            r matches Ok(t) && t@ == d@ && t.spec_is_finite(),
    {
        Ok(Timeout { value: d.as_raw() })
    }
}

impl vstd::std_specs::convert::TryFromSpecImpl<Duration> for Timeout {
    open spec fn obeys_try_from_spec() -> bool {
        true
    }

    closed spec fn try_from_spec(d: Duration) -> Result<Self, TryFromDurationError> {
        Ok(Timeout { value: d@ as u32 })
    }
}

/// Converting a finite timeout to a [`Duration`] and back gives the same
/// timeout, and the raw value is kept both ways.
pub proof fn lemma_finite_round_trip(t: Timeout, d: Duration)
    requires
        t.spec_is_finite(),
        valid_timeout(t@),
        d@ == t@,
    ensures
        0 <= d@ <= TMAX_RELTIM,
        timeout_of_micros(d@) == Some(t@),
{
}

/// Unwraps a `Timeout` constructed with one of the checked constructors.
pub fn expect_valid_timeout(x: Option<Timeout>) -> (r: Timeout)
    requires
        x is Some,
    ensures
        x == Some(r),
{
    match x {
        Some(t) => t,
        None => vstd::pervasive::unreached(),
    }
}

} // verus!
