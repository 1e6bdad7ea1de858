//! Closures: an entry point's address and the word handed to it.
use vstd::prelude::*;

verus! {

/// A bundle of an entry point's address and associated data.
///
/// When the entry point is called, the second value must be provided as the
/// parameter.
pub type Closure = (usize, isize);

/// Conversion to [`Closure`].
pub trait IntoClosure {
    /// Convert `self` to `Closure`.
    fn into_closure(self) -> Closure;
}

/// Trivial conversion.
impl IntoClosure for (usize, isize) {
    fn into_closure(self) -> (r: Closure)
        ensures
            r == self,
    {
        self
    }
}

} // verus!
