//! Miscellaneous functions that are not associated to specific kernel objects.
use vstd::prelude::*;

use crate::abi::{bool_of, Kernel};
use crate::error::{Error, ErrorCode, ErrorKind, Never};

verus! {

/// Error type for [`exit`].
///
/// `ext_ker` documents no failure besides the kernel integrity error, which
/// is critical.
#[derive(Debug, Clone, Copy, PartialEq, Eq)]
pub enum ExitError {
    AccessDenied(Never),
}

impl ErrorKind for ExitError {
    open spec fn spec_from_error_code(code: int) -> Option<Self> {
        None
    }

    fn from_error_code(code: ErrorCode) -> (r: Option<Self>) {
        None
    }
}

/// `sns_ctx`: Get a flag indicating whether the current thread is in a task
/// context.
pub fn is_task_context<K: Kernel>(kernel: &K) -> (r: bool) {
    !bool_of(kernel.sns_ctx())
}

/// `sns_loc`: Get a flag indicating whether the CPU lock state is active.
pub fn is_cpu_lock_active<K: Kernel>(kernel: &K) -> (r: bool) {
    bool_of(kernel.sns_loc())
}

/// `sns_dsp`: Get a flag indicating whether dispatching is disabled.
pub fn is_dispatching_disabled<K: Kernel>(kernel: &K) -> (r: bool) {
    bool_of(kernel.sns_dsp())
}

/// `sns_dpn`: Get a flag indicating whether the dispatch pending state is
/// active.
pub fn is_dispatch_pending_active<K: Kernel>(kernel: &K) -> (r: bool) {
    bool_of(kernel.sns_dpn())
}

/// `sns_ker`: Get a flag indicating whether the kernel is in an operational
/// state.
///
/// If this function returns `false`, all kernel service calls except for
/// `sns_ker` are unsafe to call.
pub fn is_operational<K: Kernel>(kernel: &K) -> (r: bool) {
    !bool_of(kernel.sns_ker())
}

/// `ext_ker`: Terminate the kernel.
///
/// This function does not return if it succeeds; what it returns is the
/// error: the code the kernel reported, or `E_SYS` if it reported none.
pub fn exit<K: Kernel>(kernel: &K) -> (r: Error<ExitError>)
    ensures
        r@ < 0,
{
    Error::from_failed_call(kernel.ext_ker())
}

} // verus!
