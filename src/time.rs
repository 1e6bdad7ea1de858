//! Temporal quantification.
use vstd::prelude::*;

mod duration;
mod timeout;

pub use self::duration::{expect_valid_duration, lemma_micros_round_trip, Duration};
pub use self::timeout::{expect_valid_timeout, lemma_finite_round_trip, Timeout, TryFromDurationError};

verus! {

} // verus!
