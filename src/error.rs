//! Error types.
//!
//! Errors indicate exceptional outcomes of service calls. As in most
//! traditional operating systems, μITRON reports them as negative error codes.
//!
//! # Error Kind Types
//!
//! Each fallible operation has its own error kind type: an enum with one
//! variant per failure that the operation documents. [`ErrorKind`] classifies
//! a raw code into such a variant. A variant that the target kernel cannot
//! produce carries the uninhabited type [`Never`] instead of [`Kind`], so a
//! `match` that names every variant compiles for every kernel.
//!
//! # Critical Errors
//!
//! The following errors are not classified by any error kind type:
//!
//!  - Kernel integrity errors (some cases of `E_SYS`), including a creation
//!    call that reports the null object ID.
//!
//!  - Memory access permission errors (`E_MACV`) caused by memory that the
//!    caller is supposed to be able to access.
//!
//!  - `E_PAR` caused by invalid timeout values.
//!
//! An operation hands such a code back in its [`Error`] like any other, but
//! [`Error::kind`] may only be asked of a classified code: the fatal-error
//! policy of this crate is that asking it of a critical one panics.
use vstd::prelude::*;

use core::marker::PhantomData;

use crate::abi::{
    E_BOVR, E_CLS, E_COMM, E_CTX, E_DLT, E_ID, E_ILUSE, E_MACV, E_NOEXS, E_NOID, E_NOMEM, E_NORES,
    E_NOSPT, E_OACV, E_OBJ, E_PAR, E_QOVR, E_RASTER, E_RLWAI, E_RSATR, E_RSFN, E_SYS, E_TMOUT,
    E_WBLK,
};

verus! {

/// The kernel's name for the error code `code`, if it has one.
pub open spec fn error_name(code: int) -> Option<&'static str> {
    if code == E_SYS {
        Some("E_SYS")
    } else if code == E_NOSPT {
        Some("E_NOSPT")
    } else if code == E_RSFN {
        Some("E_RSFN")
    } else if code == E_RSATR {
        Some("E_RSATR")
    } else if code == E_PAR {
        Some("E_PAR")
    } else if code == E_ID {
        Some("E_ID")
    } else if code == E_CTX {
        Some("E_CTX")
    } else if code == E_MACV {
        Some("E_MACV")
    } else if code == E_OACV {
        Some("E_OACV")
    } else if code == E_ILUSE {
        Some("E_ILUSE")
    } else if code == E_NOMEM {
        Some("E_NOMEM")
    } else if code == E_NOID {
        Some("E_NOID")
    } else if code == E_NORES {
        Some("E_NORES")
    } else if code == E_OBJ {
        Some("E_OBJ")
    } else if code == E_NOEXS {
        Some("E_NOEXS")
    } else if code == E_QOVR {
        Some("E_QOVR")
    } else if code == E_RLWAI {
        Some("E_RLWAI")
    } else if code == E_TMOUT {
        Some("E_TMOUT")
    } else if code == E_DLT {
        Some("E_DLT")
    } else if code == E_CLS {
        Some("E_CLS")
    } else if code == E_RASTER {
        Some("E_RASTER")
    } else if code == E_WBLK {
        Some("E_WBLK")
    } else if code == E_BOVR {
        Some("E_BOVR")
    } else if code == E_COMM {
        Some("E_COMM")
    } else {
        None
    }
}
/// Raw error code: a negative integer.
#[derive(Debug, Clone, Copy, PartialEq, Eq)]
pub struct ErrorCode {
    value: isize,
}

impl View for ErrorCode {
    type V = int;

    closed spec fn view(&self) -> int {
        self.value as int
    }
}

impl ErrorCode {
    #[verifier::type_invariant]
    spec fn negative(self) -> bool {
        self.value < 0
    }

    /// Construct an `ErrorCode`.
    ///
    /// Returns `None` if the specified value is not negative.
    pub fn new(code: isize) -> (r: Option<ErrorCode>)
        ensures
            r is Some <==> code < 0,
            r matches Some(c) ==> c@ == code,
    {
        if code >= 0 {
            None
        } else {
            Some(ErrorCode { value: code })
        }
    }

    /// Construct an `ErrorCode` from a value known to be negative.
    pub fn new_unchecked(code: isize) -> (r: ErrorCode)
        requires
            code < 0,
        ensures
            r@ == code,
    {
        ErrorCode { value: code }
    }

    /// Get the numerical value.
    pub fn get(self) -> (r: isize)
        ensures
            r == self@,
            r < 0,
    {
        proof {
            use_type_invariant(self);
        }
        self.value
    }

    /// An error code is determined by its value: two codes with the same
    /// value are the same code. In particular `ErrorCode::new(c.get())` gives
    /// back `Some(c)`.
    pub proof fn lemma_view_determines(a: ErrorCode, b: ErrorCode)
        ensures
            a@ == b@ ==> a == b,
    {
    }

    /// The kernel's name for this code (such as `"E_QOVR"`), or `None` for
    /// a code that the kernel does not define.
    pub fn name(self) -> (r: Option<&'static str>)
        ensures
            r == error_name(self@),
    {
        let c = self.get();
        if c == E_SYS as isize {
            Some("E_SYS")
        } else if c == E_NOSPT as isize {
            Some("E_NOSPT")
        } else if c == E_RSFN as isize {
            Some("E_RSFN")
        } else if c == E_RSATR as isize {
            Some("E_RSATR")
        } else if c == E_PAR as isize {
            Some("E_PAR")
        } else if c == E_ID as isize {
            Some("E_ID")
        } else if c == E_CTX as isize {
            Some("E_CTX")
        } else if c == E_MACV as isize {
            Some("E_MACV")
        } else if c == E_OACV as isize {
            Some("E_OACV")
        } else if c == E_ILUSE as isize {
            Some("E_ILUSE")
        } else if c == E_NOMEM as isize {
            Some("E_NOMEM")
        } else if c == E_NOID as isize {
            Some("E_NOID")
        } else if c == E_NORES as isize {
            Some("E_NORES")
        } else if c == E_OBJ as isize {
            Some("E_OBJ")
        } else if c == E_NOEXS as isize {
            Some("E_NOEXS")
        } else if c == E_QOVR as isize {
            Some("E_QOVR")
        } else if c == E_RLWAI as isize {
            Some("E_RLWAI")
        } else if c == E_TMOUT as isize {
            Some("E_TMOUT")
        } else if c == E_DLT as isize {
            Some("E_DLT")
        } else if c == E_CLS as isize {
            Some("E_CLS")
        } else if c == E_RASTER as isize {
            Some("E_RASTER")
        } else if c == E_WBLK as isize {
            Some("E_WBLK")
        } else if c == E_BOVR as isize {
            Some("E_BOVR")
        } else if c == E_COMM as isize {
            Some("E_COMM")
        } else {
            None
        }
    }
}

/// Classification of raw error codes into an error kind type.
pub trait ErrorKind: Copy + Sized {
    /// The variant that documents `code`, if any.
    spec fn spec_from_error_code(code: int) -> Option<Self>;

    /// Categorize the specified error code.
    ///
    /// Returns `None` if the error code is invalid in this context.
    fn from_error_code(code: ErrorCode) -> (r: Option<Self>)
        ensures
            r == Self::spec_from_error_code(code@),
    ;
}

/// An error code returned by an operation whose failures `T` classifies.
#[derive(Debug, PartialEq, Eq)]
pub struct Error<T> {
    code: ErrorCode,
    _phantom: PhantomData<T>,
}

impl<T> Clone for Error<T> {
    fn clone(&self) -> (r: Self)
        ensures
            r == *self,
    {
        *self
    }
}

impl<T> Copy for Error<T> {
}

impl<T> View for Error<T> {
    type V = int;

    closed spec fn view(&self) -> int {
        self.code@
    }
}

/// The raw code `code` as an operation's result: `Ok` when it is not negative,
/// `Err` carrying it otherwise.
pub open spec fn result_of<T>(code: int, r: Result<isize, Error<T>>) -> bool {
    &&& code >= 0 ==> r == Ok::<isize, Error<T>>(code as isize)
    &&& code < 0 ==> (r matches Err(e) && e@ == code)
}

/// An operation's result that carries no value: `Ok` or a negative code.
pub open spec fn unit_result<T>(r: Result<(), Error<T>>) -> bool {
    r matches Err(e) ==> e@ < 0
}

impl<T: ErrorKind> Error<T> {
    /// `T` classifies this error's code.
    pub open spec fn is_classified(self) -> bool {
        T::spec_from_error_code(self@) is Some
    }

    /// Construct an `Error` from a code that `T` classifies.
    pub fn new_unchecked(code: ErrorCode) -> (r: Self)
        requires
            T::spec_from_error_code(code@) is Some,
        ensures
            r@ == code@,
            r.is_classified(),
    {
        Error { code, _phantom: PhantomData }
    }

    /// Construct an `Error` from any negative code; a code that `T` does
    /// not classify is a critical error.
    pub fn from_code(code: ErrorCode) -> (r: Self)
        ensures
            r@ == code@,
    {
        Error { code, _phantom: PhantomData }
    }

    /// Return `Ok(code)` if `code >= 0`; `Err` carrying `code` otherwise.
    pub fn err_if_negative(code: isize) -> (r: Result<isize, Self>)
        ensures
            result_of(code as int, r),
    {
        match ErrorCode::new(code) {
            Some(e) => Err(Self::from_code(e)),
            None => Ok(code),
        }
    }

    /// Get the error kind.
    ///
    /// The code must be one that `T` classifies; asking it of a critical
    /// error panics.
    pub fn kind(self) -> (r: T)
        requires
            self.is_classified(),
        ensures
            T::spec_from_error_code(self@) == Some(r),
    {
        match T::from_error_code(self.code) {
            Some(k) => k,
            None => vstd::pervasive::unreached(),
        }
    }

    /// Get the error kind, or `None` for a critical error, which `T` does
    /// not classify.
    pub fn try_kind(self) -> (r: Option<T>)
        ensures
            r == T::spec_from_error_code(self@),
    {
        T::from_error_code(self.code)
    }

    /// The error that a call which returns only on failure reports: its
    /// code when negative, and the kernel integrity error `E_SYS` for a
    /// value that is not an error code.
    pub fn from_failed_call(code: crate::abi::ER) -> (r: Self)
        ensures
            code < 0 ==> r@ == code,
            code >= 0 ==> r@ == E_SYS,
    {
        match ErrorCode::new(code as isize) {
            Some(c) => Self::from_code(c),
            None => Self::from_code(ErrorCode::new_unchecked(E_SYS as isize)),
        }
    }

    /// Get the error code.
    pub fn code(self) -> (r: ErrorCode)
        ensures
            r@ == self@,
    {
        self.code
    }
}

impl<T: ErrorKind> From<Error<T>> for ErrorCode {
    /// The error's code.
    fn from(x: Error<T>) -> (r: ErrorCode)
        ensures
            r@ == x@,
    {
        x.code()
    }
}

impl<T: ErrorKind> vstd::std_specs::convert::FromSpecImpl<Error<T>> for ErrorCode {
    open spec fn obeys_from_spec() -> bool {
        true
    }

    closed spec fn from_spec(x: Error<T>) -> ErrorCode {
        x.code
    }
}

/// The service call result `code` as the result of an operation that returns
/// nothing.
pub fn check<T: ErrorKind>(code: crate::abi::ER) -> (r: Result<(), Error<T>>)
    ensures
        code >= 0 <==> r is Ok,
        r matches Err(e) ==> e@ == code,
{
    match Error::<T>::err_if_negative(code as isize) {
        Ok(_) => Ok(()),
        Err(e) => Err(e),
    }
}

/// Type for error kinds that are valid in the current target kernel.
#[derive(Debug, Clone, Copy, PartialEq, Eq)]
pub struct Kind(pub __Unstable);

/// The content of [`Kind`], left open for later versions.
#[derive(Debug, Clone, Copy, PartialEq, Eq)]
pub struct __Unstable;

/// Indicates that the error kind never occurs in the current target kernel.
///
/// No value of this type exists: its field is private, and no function of
/// this crate constructs one.
#[derive(Debug, Clone, Copy, PartialEq, Eq)]
pub struct Never {
    _private: (),
}

/// The [`Kind`] value that every inhabited variant carries.
pub open spec fn kind() -> Kind {
    Kind(__Unstable)
}

} // verus!
