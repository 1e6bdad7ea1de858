//! Tasks.
use vstd::prelude::*;

use crate::abi::{
    Kernel, NonNullID, ER_ID, E_CTX, E_ID, E_ILUSE, E_NOEXS, E_NOID, E_NOMEM, E_NOSPT, E_OBJ, E_PAR,
    E_QOVR, E_RASTER, E_RLWAI, E_SYS, E_TMOUT, ID, PRI, STAT, TA_NULL, TTS_DMT, TTS_RDY, TTS_RUN,
    TTS_SUS, TTS_WAI, TTS_WAS, T_CTSK, T_RTSK,
};
use crate::closure::Closure;
use crate::error::{
    check, kind, unit_result, Error, ErrorCode, ErrorKind, Kind, Never, __Unstable,
};
use crate::time::{Duration, Timeout};

verus! {

/// Error type for [`TaskRef::activate`].
#[derive(Debug, Clone, Copy, PartialEq, Eq)]
pub enum ActivateError {
    BadContext(Kind),
    BadId(Kind),
    AccessDenied(Never),
    QueueOverflow(Kind),
}

impl ErrorKind for ActivateError {
    open spec fn spec_from_error_code(code: int) -> Option<Self> {
        if code == E_CTX {
            Some(ActivateError::BadContext(kind()))
        } else if code == E_ID || code == E_NOEXS {
            Some(ActivateError::BadId(kind()))
        } else if code == E_QOVR {
            Some(ActivateError::QueueOverflow(kind()))
        } else {
            None
        }
    }

    fn from_error_code(code: ErrorCode) -> (r: Option<Self>) {
        let c = code.get();
        if c == E_CTX as isize {
            Some(ActivateError::BadContext(Kind(__Unstable)))
        } else if c == E_ID as isize || c == E_NOEXS as isize {
            Some(ActivateError::BadId(Kind(__Unstable)))
        } else if c == E_QOVR as isize {
            Some(ActivateError::QueueOverflow(Kind(__Unstable)))
        } else {
            None
        }
    }
}

/// Error type for [`TaskRef::cancel_activate_all`].
#[derive(Debug, Clone, Copy, PartialEq, Eq)]
pub enum CancelActivateAllError {
    BadContext(Kind),
    BadId(Kind),
    AccessDenied(Never),
}

impl ErrorKind for CancelActivateAllError {
    open spec fn spec_from_error_code(code: int) -> Option<Self> {
        if code == E_CTX {
            Some(CancelActivateAllError::BadContext(kind()))
        } else if code == E_ID || code == E_NOEXS {
            Some(CancelActivateAllError::BadId(kind()))
        } else {
            None
        }
    }

    fn from_error_code(code: ErrorCode) -> (r: Option<Self>) {
        let c = code.get();
        if c == E_CTX as isize {
            Some(CancelActivateAllError::BadContext(Kind(__Unstable)))
        } else if c == E_ID as isize || c == E_NOEXS as isize {
            Some(CancelActivateAllError::BadId(Kind(__Unstable)))
        } else {
            None
        }
    }
}

/// Error type for [`TaskRef::set_priority`].
#[derive(Debug, Clone, Copy, PartialEq, Eq)]
pub enum SetPriorityError {
    BadContext(Kind),
    BadId(Kind),
    /// The task is dormant.
    BadState(Kind),
    /// Bad parameter.
    ///
    ///  - The task is a restricted task, for which changing the priority is
    ///    not supported (NGKI1186).
    ///
    ///  - The specified priority is out of range.
    ///
    ///  - The task owns a priority-ceiling mutex, and the specified priority
    ///    is higher than the mutex's priority ceiling.
    ///
    BadParam(Kind),
    AccessDenied(Never),
}

impl ErrorKind for SetPriorityError {
    open spec fn spec_from_error_code(code: int) -> Option<Self> {
        if code == E_CTX {
            Some(SetPriorityError::BadContext(kind()))
        } else if code == E_ID || code == E_NOEXS {
            Some(SetPriorityError::BadId(kind()))
        } else if code == E_OBJ {
            Some(SetPriorityError::BadState(kind()))
        } else if code == E_PAR || code == E_NOSPT || code == E_ILUSE {
            Some(SetPriorityError::BadParam(kind()))
        } else {
            None
        }
    }

    fn from_error_code(code: ErrorCode) -> (r: Option<Self>) {
        let c = code.get();
        if c == E_CTX as isize {
            Some(SetPriorityError::BadContext(Kind(__Unstable)))
        } else if c == E_ID as isize || c == E_NOEXS as isize {
            Some(SetPriorityError::BadId(Kind(__Unstable)))
        } else if c == E_OBJ as isize {
            Some(SetPriorityError::BadState(Kind(__Unstable)))
        } else if c == E_PAR as isize || c == E_NOSPT as isize || c == E_ILUSE as isize {
            Some(SetPriorityError::BadParam(Kind(__Unstable)))
        } else {
            None
        }
    }
}

/// Error type for [`TaskRef::priority`].
#[derive(Debug, Clone, Copy, PartialEq, Eq)]
pub enum PriorityError {
    BadContext(Kind),
    BadId(Kind),
    /// The task is dormant.
    BadState(Kind),
    AccessDenied(Never),
}

impl ErrorKind for PriorityError {
    open spec fn spec_from_error_code(code: int) -> Option<Self> {
        if code == E_CTX {
            Some(PriorityError::BadContext(kind()))
        } else if code == E_ID || code == E_NOEXS {
            Some(PriorityError::BadId(kind()))
        } else if code == E_OBJ {
            Some(PriorityError::BadState(kind()))
        } else {
            None
        }
    }

    fn from_error_code(code: ErrorCode) -> (r: Option<Self>) {
        let c = code.get();
        if c == E_CTX as isize {
            Some(PriorityError::BadContext(Kind(__Unstable)))
        } else if c == E_ID as isize || c == E_NOEXS as isize {
            Some(PriorityError::BadId(Kind(__Unstable)))
        } else if c == E_OBJ as isize {
            Some(PriorityError::BadState(Kind(__Unstable)))
        } else {
            None
        }
    }
}

/// Error type for [`TaskRef::delete`].
#[derive(Debug, Clone, Copy, PartialEq, Eq)]
pub enum DeleteError {
    BadContext(Kind),
    BadId(Kind),
    AccessDenied(Never),
    BadState(Kind),
}

impl ErrorKind for DeleteError {
    open spec fn spec_from_error_code(code: int) -> Option<Self> {
        if code == E_CTX {
            Some(DeleteError::BadContext(kind()))
        } else if code == E_ID || code == E_NOEXS {
            Some(DeleteError::BadId(kind()))
        } else if code == E_OBJ {
            Some(DeleteError::BadState(kind()))
        } else {
            None
        }
    }

    fn from_error_code(code: ErrorCode) -> (r: Option<Self>) {
        let c = code.get();
        if c == E_CTX as isize {
            Some(DeleteError::BadContext(Kind(__Unstable)))
        } else if c == E_ID as isize || c == E_NOEXS as isize {
            Some(DeleteError::BadId(Kind(__Unstable)))
        } else if c == E_OBJ as isize {
            Some(DeleteError::BadState(Kind(__Unstable)))
        } else {
            None
        }
    }
}

/// Error type for [`TaskRef::state`].
#[derive(Debug, Clone, Copy, PartialEq, Eq)]
pub enum StateError {
    BadContext(Kind),
    BadId(Kind),
    AccessDenied(Never),
}

impl ErrorKind for StateError {
    open spec fn spec_from_error_code(code: int) -> Option<Self> {
        if code == E_CTX {
            Some(StateError::BadContext(kind()))
        } else if code == E_ID || code == E_NOEXS {
            Some(StateError::BadId(kind()))
        } else {
            None
        }
    }

    fn from_error_code(code: ErrorCode) -> (r: Option<Self>) {
        let c = code.get();
        if c == E_CTX as isize {
            Some(StateError::BadContext(Kind(__Unstable)))
        } else if c == E_ID as isize || c == E_NOEXS as isize {
            Some(StateError::BadId(Kind(__Unstable)))
        } else {
            None
        }
    }
}

/// Error type for [`TaskRef::info`].
#[derive(Debug, Clone, Copy, PartialEq, Eq)]
pub enum InfoError {
    BadContext(Kind),
    BadId(Kind),
    AccessDenied(Never),
}

impl ErrorKind for InfoError {
    open spec fn spec_from_error_code(code: int) -> Option<Self> {
        if code == E_CTX {
            Some(InfoError::BadContext(kind()))
        } else if code == E_ID || code == E_NOEXS {
            Some(InfoError::BadId(kind()))
        } else {
            None
        }
    }

    fn from_error_code(code: ErrorCode) -> (r: Option<Self>) {
        let c = code.get();
        if c == E_CTX as isize {
            Some(InfoError::BadContext(Kind(__Unstable)))
        } else if c == E_ID as isize || c == E_NOEXS as isize {
            Some(InfoError::BadId(Kind(__Unstable)))
        } else {
            None
        }
    }
}

/// Error type for [`TaskRef::wake`].
#[derive(Debug, Clone, Copy, PartialEq, Eq)]
pub enum WakeError {
    BadContext(Kind),
    BadId(Kind),
    /// The task is a restricted task.
    NotSupported(Kind),
    AccessDenied(Never),
    /// Bad state.
    ///
    ///  - The task is dormant.
    ///
    BadState(Kind),
    QueueOverflow(Kind),
}

impl ErrorKind for WakeError {
    open spec fn spec_from_error_code(code: int) -> Option<Self> {
        if code == E_CTX {
            Some(WakeError::BadContext(kind()))
        } else if code == E_ID || code == E_NOEXS {
            Some(WakeError::BadId(kind()))
        } else if code == E_NOSPT {
            Some(WakeError::NotSupported(kind()))
        } else if code == E_OBJ {
            Some(WakeError::BadState(kind()))
        } else if code == E_QOVR {
            Some(WakeError::QueueOverflow(kind()))
        } else {
            None
        }
    }

    fn from_error_code(code: ErrorCode) -> (r: Option<Self>) {
        let c = code.get();
        if c == E_CTX as isize {
            Some(WakeError::BadContext(Kind(__Unstable)))
        } else if c == E_ID as isize || c == E_NOEXS as isize {
            Some(WakeError::BadId(Kind(__Unstable)))
        } else if c == E_NOSPT as isize {
            Some(WakeError::NotSupported(Kind(__Unstable)))
        } else if c == E_OBJ as isize {
            Some(WakeError::BadState(Kind(__Unstable)))
        } else if c == E_QOVR as isize {
            Some(WakeError::QueueOverflow(Kind(__Unstable)))
        } else {
            None
        }
    }
}

/// Error type for [`TaskRef::cancel_wake_all`].
#[derive(Debug, Clone, Copy, PartialEq, Eq)]
pub enum CancelWakeAllError {
    BadContext(Kind),
    BadId(Kind),
    /// The task is a restricted task.
    NotSupported(Kind),
    AccessDenied(Never),
    /// Bad state.
    ///
    ///  - The task is dormant.
    ///
    BadState(Kind),
}

impl ErrorKind for CancelWakeAllError {
    open spec fn spec_from_error_code(code: int) -> Option<Self> {
        if code == E_CTX {
            Some(CancelWakeAllError::BadContext(kind()))
        } else if code == E_ID || code == E_NOEXS {
            Some(CancelWakeAllError::BadId(kind()))
        } else if code == E_NOSPT {
            Some(CancelWakeAllError::NotSupported(kind()))
        } else if code == E_OBJ {
            Some(CancelWakeAllError::BadState(kind()))
        } else {
            None
        }
    }

    fn from_error_code(code: ErrorCode) -> (r: Option<Self>) {
        let c = code.get();
        if c == E_CTX as isize {
            Some(CancelWakeAllError::BadContext(Kind(__Unstable)))
        } else if c == E_ID as isize || c == E_NOEXS as isize {
            Some(CancelWakeAllError::BadId(Kind(__Unstable)))
        } else if c == E_NOSPT as isize {
            Some(CancelWakeAllError::NotSupported(Kind(__Unstable)))
        } else if c == E_OBJ as isize {
            Some(CancelWakeAllError::BadState(Kind(__Unstable)))
        } else {
            None
        }
    }
}

/// Error type for [`TaskRef::release_wait`].
#[derive(Debug, Clone, Copy, PartialEq, Eq)]
pub enum ReleaseWaitError {
    BadContext(Kind),
    BadId(Kind),
    /// The task is a restricted task.
    NotSupported(Kind),
    AccessDenied(Never),
    /// Bad state.
    ///
    ///  - The task is not waiting.
    ///
    BadState(Kind),
}

impl ErrorKind for ReleaseWaitError {
    open spec fn spec_from_error_code(code: int) -> Option<Self> {
        if code == E_CTX {
            Some(ReleaseWaitError::BadContext(kind()))
        } else if code == E_ID || code == E_NOEXS {
            Some(ReleaseWaitError::BadId(kind()))
        } else if code == E_NOSPT {
            Some(ReleaseWaitError::NotSupported(kind()))
        } else if code == E_OBJ {
            Some(ReleaseWaitError::BadState(kind()))
        } else {
            None
        }
    }

    fn from_error_code(code: ErrorCode) -> (r: Option<Self>) {
        let c = code.get();
        if c == E_CTX as isize {
            Some(ReleaseWaitError::BadContext(Kind(__Unstable)))
        } else if c == E_ID as isize || c == E_NOEXS as isize {
            Some(ReleaseWaitError::BadId(Kind(__Unstable)))
        } else if c == E_NOSPT as isize {
            Some(ReleaseWaitError::NotSupported(Kind(__Unstable)))
        } else if c == E_OBJ as isize {
            Some(ReleaseWaitError::BadState(Kind(__Unstable)))
        } else {
            None
        }
    }
}

/// Error type for [`TaskRef::suspend`].
#[derive(Debug, Clone, Copy, PartialEq, Eq)]
pub enum SuspendError {
    BadContext(Kind),
    BadId(Kind),
    /// The task is a restricted task.
    NotSupported(Kind),
    AccessDenied(Never),
    /// Bad state.
    ///
    ///  - The task is dormant.
    ///  - The task has a pending termination request.
    ///
    BadState(Kind),
    /// The task is already suspended.
    QueueOverflow(Kind),
}

impl ErrorKind for SuspendError {
    open spec fn spec_from_error_code(code: int) -> Option<Self> {
        if code == E_CTX {
            Some(SuspendError::BadContext(kind()))
        } else if code == E_ID || code == E_NOEXS {
            Some(SuspendError::BadId(kind()))
        } else if code == E_NOSPT {
            Some(SuspendError::NotSupported(kind()))
        } else if code == E_OBJ || code == E_RASTER {
            Some(SuspendError::BadState(kind()))
        } else if code == E_QOVR {
            Some(SuspendError::QueueOverflow(kind()))
        } else {
            None
        }
    }

    fn from_error_code(code: ErrorCode) -> (r: Option<Self>) {
        let c = code.get();
        if c == E_CTX as isize {
            Some(SuspendError::BadContext(Kind(__Unstable)))
        } else if c == E_ID as isize || c == E_NOEXS as isize {
            Some(SuspendError::BadId(Kind(__Unstable)))
        } else if c == E_NOSPT as isize {
            Some(SuspendError::NotSupported(Kind(__Unstable)))
        } else if c == E_OBJ as isize || c == E_RASTER as isize {
            Some(SuspendError::BadState(Kind(__Unstable)))
        } else if c == E_QOVR as isize {
            Some(SuspendError::QueueOverflow(Kind(__Unstable)))
        } else {
            None
        }
    }
}

/// Error type for [`TaskRef::resume`].
#[derive(Debug, Clone, Copy, PartialEq, Eq)]
pub enum ResumeError {
    BadContext(Kind),
    BadId(Kind),
    /// The task is a restricted task.
    NotSupported(Kind),
    AccessDenied(Never),
    /// Bad state.
    ///
    ///  - The task is not suspended.
    ///
    BadState(Kind),
}

impl ErrorKind for ResumeError {
    open spec fn spec_from_error_code(code: int) -> Option<Self> {
        if code == E_CTX {
            Some(ResumeError::BadContext(kind()))
        } else if code == E_ID || code == E_NOEXS {
            Some(ResumeError::BadId(kind()))
        } else if code == E_NOSPT {
            Some(ResumeError::NotSupported(kind()))
        } else if code == E_OBJ {
            Some(ResumeError::BadState(kind()))
        } else {
            None
        }
    }

    fn from_error_code(code: ErrorCode) -> (r: Option<Self>) {
        let c = code.get();
        if c == E_CTX as isize {
            Some(ResumeError::BadContext(Kind(__Unstable)))
        } else if c == E_ID as isize || c == E_NOEXS as isize {
            Some(ResumeError::BadId(Kind(__Unstable)))
        } else if c == E_NOSPT as isize {
            Some(ResumeError::NotSupported(Kind(__Unstable)))
        } else if c == E_OBJ as isize {
            Some(ResumeError::BadState(Kind(__Unstable)))
        } else {
            None
        }
    }
}

/// Error type for [`TaskRef::terminate`].
#[derive(Debug, Clone, Copy, PartialEq, Eq)]
pub enum TerminateError {
    BadContext(Kind),
    BadId(Kind),
    AccessDenied(Never),
    /// Bad state.
    ///
    ///  - The task is dormant.
    ///  - The task is assigned to a processor that is different from the
    ///    current one (`E_OBJ`, NGKI3481).
    ///
    BadState(Kind),
    /// Bad parameter.
    ///
    ///  - The current task cannot be terminated,
    ///
    BadParam(Kind),
}

impl ErrorKind for TerminateError {
    open spec fn spec_from_error_code(code: int) -> Option<Self> {
        if code == E_CTX {
            Some(TerminateError::BadContext(kind()))
        } else if code == E_ID || code == E_NOEXS {
            Some(TerminateError::BadId(kind()))
        } else if code == E_OBJ {
            Some(TerminateError::BadState(kind()))
        } else if code == E_ILUSE {
            Some(TerminateError::BadParam(kind()))
        } else {
            None
        }
    }

    fn from_error_code(code: ErrorCode) -> (r: Option<Self>) {
        let c = code.get();
        if c == E_CTX as isize {
            Some(TerminateError::BadContext(Kind(__Unstable)))
        } else if c == E_ID as isize || c == E_NOEXS as isize {
            Some(TerminateError::BadId(Kind(__Unstable)))
        } else if c == E_OBJ as isize {
            Some(TerminateError::BadState(Kind(__Unstable)))
        } else if c == E_ILUSE as isize {
            Some(TerminateError::BadParam(Kind(__Unstable)))
        } else {
            None
        }
    }
}

/// Error type for [`TaskRef::raise_termination`].
#[derive(Debug, Clone, Copy, PartialEq, Eq)]
pub enum RaiseTerminationError {
    BadContext(Kind),
    BadId(Kind),
    AccessDenied(Never),
    /// Bad state.
    ///
    ///  - The task is dormant.
    ///  - The task is assigned to a processor that is different from the
    ///    current one (`E_OBJ`, NGKI3481).
    ///
    BadState(Kind),
    /// Bad state.
    ///
    ///  - The current task cannot be terminated,
    ///
    BadParam(Kind),
}

impl ErrorKind for RaiseTerminationError {
    open spec fn spec_from_error_code(code: int) -> Option<Self> {
        if code == E_CTX {
            Some(RaiseTerminationError::BadContext(kind()))
        } else if code == E_ID || code == E_NOEXS {
            Some(RaiseTerminationError::BadId(kind()))
        } else if code == E_OBJ {
            Some(RaiseTerminationError::BadState(kind()))
        } else if code == E_ILUSE {
            Some(RaiseTerminationError::BadParam(kind()))
        } else {
            None
        }
    }

    fn from_error_code(code: ErrorCode) -> (r: Option<Self>) {
        let c = code.get();
        if c == E_CTX as isize {
            Some(RaiseTerminationError::BadContext(Kind(__Unstable)))
        } else if c == E_ID as isize || c == E_NOEXS as isize {
            Some(RaiseTerminationError::BadId(Kind(__Unstable)))
        } else if c == E_OBJ as isize {
            Some(RaiseTerminationError::BadState(Kind(__Unstable)))
        } else if c == E_ILUSE as isize {
            Some(RaiseTerminationError::BadParam(Kind(__Unstable)))
        } else {
            None
        }
    }
}

/// Error type for [`sleep`].
#[derive(Debug, Clone, Copy, PartialEq, Eq)]
pub enum SleepError {
    BadContext(Kind),
    /// The task is a restricted task.
    NotSupported(Kind),
    Released(Kind),
    TerminateRequest(Kind),
}

impl ErrorKind for SleepError {
    open spec fn spec_from_error_code(code: int) -> Option<Self> {
        if code == E_CTX {
            Some(SleepError::BadContext(kind()))
        } else if code == E_NOSPT {
            Some(SleepError::NotSupported(kind()))
        } else if code == E_RLWAI {
            Some(SleepError::Released(kind()))
        } else if code == E_RASTER {
            Some(SleepError::TerminateRequest(kind()))
        } else {
            None
        }
    }

    fn from_error_code(code: ErrorCode) -> (r: Option<Self>) {
        let c = code.get();
        if c == E_CTX as isize {
            Some(SleepError::BadContext(Kind(__Unstable)))
        } else if c == E_NOSPT as isize {
            Some(SleepError::NotSupported(Kind(__Unstable)))
        } else if c == E_RLWAI as isize {
            Some(SleepError::Released(Kind(__Unstable)))
        } else if c == E_RASTER as isize {
            Some(SleepError::TerminateRequest(Kind(__Unstable)))
        } else {
            None
        }
    }
}

/// Error type for [`sleep_timeout`].
#[derive(Debug, Clone, Copy, PartialEq, Eq)]
pub enum SleepTimeoutError {
    BadContext(Kind),
    /// The task is a restricted task.
    NotSupported(Kind),
    Timeout(Kind),
    Released(Kind),
    TerminateRequest(Kind),
}

impl ErrorKind for SleepTimeoutError {
    open spec fn spec_from_error_code(code: int) -> Option<Self> {
        if code == E_CTX {
            Some(SleepTimeoutError::BadContext(kind()))
        } else if code == E_NOSPT {
            Some(SleepTimeoutError::NotSupported(kind()))
        } else if code == E_TMOUT {
            Some(SleepTimeoutError::Timeout(kind()))
        } else if code == E_RLWAI {
            Some(SleepTimeoutError::Released(kind()))
        } else if code == E_RASTER {
            Some(SleepTimeoutError::TerminateRequest(kind()))
        } else {
            None
        }
    }

    fn from_error_code(code: ErrorCode) -> (r: Option<Self>) {
        let c = code.get();
        if c == E_CTX as isize {
            Some(SleepTimeoutError::BadContext(Kind(__Unstable)))
        } else if c == E_NOSPT as isize {
            Some(SleepTimeoutError::NotSupported(Kind(__Unstable)))
        } else if c == E_TMOUT as isize {
            Some(SleepTimeoutError::Timeout(Kind(__Unstable)))
        } else if c == E_RLWAI as isize {
            Some(SleepTimeoutError::Released(Kind(__Unstable)))
        } else if c == E_RASTER as isize {
            Some(SleepTimeoutError::TerminateRequest(Kind(__Unstable)))
        } else {
            None
        }
    }
}

/// Error type for [`delay`].
#[derive(Debug, Clone, Copy, PartialEq, Eq)]
pub enum DelayError {
    BadContext(Kind),
    /// The task is a restricted task.
    NotSupported(Kind),
    Released(Kind),
    TerminateRequest(Kind),
}

impl ErrorKind for DelayError {
    open spec fn spec_from_error_code(code: int) -> Option<Self> {
        if code == E_CTX {
            Some(DelayError::BadContext(kind()))
        } else if code == E_NOSPT {
            Some(DelayError::NotSupported(kind()))
        } else if code == E_RLWAI {
            Some(DelayError::Released(kind()))
        } else if code == E_RASTER {
            Some(DelayError::TerminateRequest(kind()))
        } else {
            None
        }
    }

    fn from_error_code(code: ErrorCode) -> (r: Option<Self>) {
        let c = code.get();
        if c == E_CTX as isize {
            Some(DelayError::BadContext(Kind(__Unstable)))
        } else if c == E_NOSPT as isize {
            Some(DelayError::NotSupported(Kind(__Unstable)))
        } else if c == E_RLWAI as isize {
            Some(DelayError::Released(Kind(__Unstable)))
        } else if c == E_RASTER as isize {
            Some(DelayError::TerminateRequest(Kind(__Unstable)))
        } else {
            None
        }
    }
}

/// Error type for [`exit`].
#[derive(Debug, Clone, Copy, PartialEq, Eq)]
pub enum ExitError {
    BadContext(Kind),
}

impl ErrorKind for ExitError {
    open spec fn spec_from_error_code(code: int) -> Option<Self> {
        if code == E_CTX {
            Some(ExitError::BadContext(kind()))
        } else {
            None
        }
    }

    fn from_error_code(code: ErrorCode) -> (r: Option<Self>) {
        let c = code.get();
        if c == E_CTX as isize {
            Some(ExitError::BadContext(Kind(__Unstable)))
        } else {
            None
        }
    }
}

/// Error type for [`disable_termination`].
#[derive(Debug, Clone, Copy, PartialEq, Eq)]
pub enum DisableTerminationError {
    BadContext(Kind),
    AccessDenied(Never),
}

impl ErrorKind for DisableTerminationError {
    open spec fn spec_from_error_code(code: int) -> Option<Self> {
        if code == E_CTX {
            Some(DisableTerminationError::BadContext(kind()))
        } else {
            None
        }
    }

    fn from_error_code(code: ErrorCode) -> (r: Option<Self>) {
        let c = code.get();
        if c == E_CTX as isize {
            Some(DisableTerminationError::BadContext(Kind(__Unstable)))
        } else {
            None
        }
    }
}

/// Error type for [`current_id`].
#[derive(Debug, Clone, Copy, PartialEq, Eq)]
pub enum CurrentIdError {
    /// The CPU lock state is active.
    BadContext(Kind),
}

impl ErrorKind for CurrentIdError {
    open spec fn spec_from_error_code(code: int) -> Option<Self> {
        if code == E_CTX {
            Some(CurrentIdError::BadContext(kind()))
        } else {
            None
        }
    }

    fn from_error_code(code: ErrorCode) -> (r: Option<Self>) {
        let c = code.get();
        if c == E_CTX as isize {
            Some(CurrentIdError::BadContext(Kind(__Unstable)))
        } else {
            None
        }
    }
}

/// Error type for [`Task::build`].
#[derive(Debug, Clone, Copy, PartialEq, Eq)]
pub enum BuildError {
    BadContext(Kind),
    AccessDenied(Never),
    /// Ran out of memory or task IDs.
    OutOfMemory(Kind),
    /// Bad parameter.
    ///
    ///  - The specified stack region overlaps with an existing memory
    ///    object (NGKI1060, `E_OBJ`).
    ///
    ///  - The specified system stack region is not included a kernel-only
    ///    memory object (NGKI1057, `E_OBJ`).
    ///
    ///  - The specified stack size is too small (NGKI1042, `E_PAR`).
    ///
    ///  - The specified system stack size is too small (NGKI1044, `E_PAR`).
    ///
    ///  - NGKI5108, `E_PAR`.
    ///
    ///  - The kernel configuration requires manual stack specification, but
    ///    the caller did not specify one (NGKI3907, `E_PAR`).
    ///
    ///  - The specified stack does not meet target-specific requirements
    ///    (NGKI1056, `E_PAR`).
    ///
    ///  - The specified system stack does not meet target-specific
    ///    requirements (NGKI1065, `E_PAR`).
    ///
    ///  - The caller requested to create a system task, and `sstk` is
    ///    non-null (NGKI1068, `E_PAR`).
    ///
    ///  - The caller requested to create a system task, `sstksz != 0`,
    ///    and `stk` is non-null (NGKI1071, `E_PAR`).
    ///
    BadParam(Kind),
}

impl ErrorKind for BuildError {
    open spec fn spec_from_error_code(code: int) -> Option<Self> {
        if code == E_CTX {
            Some(BuildError::BadContext(kind()))
        } else if code == E_NOID || code == E_NOMEM {
            Some(BuildError::OutOfMemory(kind()))
        } else if code == E_PAR {
            Some(BuildError::BadParam(kind()))
        } else {
            None
        }
    }

    fn from_error_code(code: ErrorCode) -> (r: Option<Self>) {
        let c = code.get();
        if c == E_CTX as isize {
            Some(BuildError::BadContext(Kind(__Unstable)))
        } else if c == E_NOID as isize || c == E_NOMEM as isize {
            Some(BuildError::OutOfMemory(Kind(__Unstable)))
        } else if c == E_PAR as isize {
            Some(BuildError::BadParam(Kind(__Unstable)))
        } else {
            None
        }
    }
}
/// Error type for [`enable_termination`].
pub type EnableTerminationError = DisableTerminationError;

/// Error type for [`current`]: the caller is not in a task context.
#[derive(Debug, Clone, Copy, PartialEq, Eq, Hash)]
pub struct BadContextError(());

/// Task priority value.
pub type Priority = PRI;

/// Task state.
#[derive(Debug, Clone, Copy, PartialEq, Eq, Hash)]
pub enum State {
    /// The task is running.
    Running,
    /// The task is ready to run.
    Ready,
    /// The task is waiting.
    Waiting,
    /// The task is suspended.
    Suspended,
    /// The task is both waiting and suspended.
    WaitingSuspended,
    /// The task is dormant.
    Dormant,
}

/// The state that the kernel's value `x` denotes, if any.
pub open spec fn state_of(x: STAT) -> Option<State> {
    if x == TTS_RUN {
        Some(State::Running)
    } else if x == TTS_RDY {
        Some(State::Ready)
    } else if x == TTS_WAI {
        Some(State::Waiting)
    } else if x == TTS_SUS {
        Some(State::Suspended)
    } else if x == TTS_WAS {
        Some(State::WaitingSuspended)
    } else if x == TTS_DMT {
        Some(State::Dormant)
    } else {
        None
    }
}

impl State {
    /// The state that the kernel's value `x` denotes, if any.
    pub fn from_abi(x: STAT) -> (r: Option<State>)
        ensures
            r == state_of(x),
    {
        if x == TTS_RUN {
            Some(State::Running)
        } else if x == TTS_RDY {
            Some(State::Ready)
        } else if x == TTS_WAI {
            Some(State::Waiting)
        } else if x == TTS_SUS {
            Some(State::Suspended)
        } else if x == TTS_WAS {
            Some(State::WaitingSuspended)
        } else if x == TTS_DMT {
            Some(State::Dormant)
        } else {
            None
        }
    }
}

/// Task information returned by [`TaskRef::info`].
#[derive(Debug, Clone, Copy)]
pub struct Info {
    raw: T_RTSK,
}

impl View for Info {
    type V = T_RTSK;

    closed spec fn view(&self) -> T_RTSK {
        self.raw
    }
}

impl Info {
    #[verifier::type_invariant]
    spec fn known_state(self) -> bool {
        state_of(self.raw.tskstat) is Some
    }

    /// Get the task's state.
    pub fn state(&self) -> (r: State)
        ensures
            state_of(self@.tskstat) == Some(r),
    {
        proof {
            use_type_invariant(self);
        }
        match State::from_abi(self.raw.tskstat) {
            Some(s) => s,
            None => vstd::pervasive::unreached(),
        }
    }

    /// Get the task's current priority.
    pub fn current_priority(&self) -> (r: Priority)
        ensures
            r == self@.tskpri,
    {
        self.raw.tskpri
    }

    /// Get the task's base priority.
    pub fn base_priority(&self) -> (r: Priority)
        ensures
            r == self@.tskbpri,
    {
        self.raw.tskbpri
    }
}

/// The kernel integrity error that stands for a value the kernel must never
/// report.
fn integrity_error<T: ErrorKind>() -> (r: Error<T>)
    ensures
        r@ == E_SYS,
{
    Error::from_code(ErrorCode::new_unchecked(E_SYS as isize))
}

/// `slp_tsk`: Put the current task to sleep.
pub fn sleep<K: Kernel>(kernel: &K) -> (r: Result<(), Error<SleepError>>)
    ensures
        unit_result(r),
{
    check(kernel.slp_tsk())
}

/// `tslp_tsk`: Put the current task to sleep with timeout.
pub fn sleep_timeout<K: Kernel>(kernel: &K, tmo: Timeout) -> (r: Result<(), Error<SleepTimeoutError>>)
    ensures
        unit_result(r),
{
    check(kernel.tslp_tsk(tmo.as_raw()))
}

/// `dly_tsk`: Delay the current task.
pub fn delay<K: Kernel>(kernel: &K, dur: Duration) -> (r: Result<(), Error<DelayError>>)
    ensures
        unit_result(r),
{
    check(kernel.dly_tsk(dur.as_raw()))
}

/// `ext_tsk`: Terminate the current task.
///
/// This function does not return if it succeeds; what it returns is the
/// error: the code the kernel reported, or `E_SYS` if it reported none.
/// Destructors of the task's values do not run.
pub fn exit<K: Kernel>(kernel: &K) -> (r: Error<ExitError>)
    ensures
        r@ < 0,
{
    Error::from_failed_call(kernel.ext_tsk())
}

/// `dis_ter`: Disable the termination of the current task by a termination
/// request.
pub fn disable_termination<K: Kernel>(kernel: &K) -> (r: Result<(), Error<DisableTerminationError>>)
    ensures
        unit_result(r),
{
    check(kernel.dis_ter())
}

/// `ena_ter`: Enable the termination of the current task by a termination
/// request.
pub fn enable_termination<K: Kernel>(kernel: &K) -> (r: Result<(), Error<EnableTerminationError>>)
    ensures
        unit_result(r),
{
    check(kernel.ena_ter())
}

/// `sns_ter`: Determine whether the termination by a termination request is
/// disabled for the current task.
pub fn is_termination_disabled<K: Kernel>(kernel: &K) -> (r: bool) {
    crate::abi::bool_of(kernel.sns_ter())
}

/// `get_tid`: Get the current task's ID; `None` outside of a task.
pub fn current_id<K: Kernel>(kernel: &K) -> (r: Result<Option<NonNullID>, Error<CurrentIdError>>)
    ensures
        r matches Err(e) ==> e@ < 0,
{
    let mut id: ID = 0;
    let code = kernel.get_tid(&mut id);
    match check(code) {
        Ok(()) => Ok(NonNullID::new(id)),
        Err(e) => Err(e),
    }
}

/// A borrowed reference to a task.
///
/// The lifetime `'a` bounds both the borrow of the kernel and the time for
/// which the task is known to exist.
#[derive(Debug)]
pub struct TaskRef<'a, K: Kernel> {
    id: NonNullID,
    kernel: &'a K,
}

impl<'a, K: Kernel> Clone for TaskRef<'a, K> {
    fn clone(&self) -> (r: Self)
        ensures
            r == *self,
    {
        *self
    }
}

impl<'a, K: Kernel> Copy for TaskRef<'a, K> {
}

impl<'a, K: Kernel> PartialEq for TaskRef<'a, K> {
    fn eq(&self, other: &Self) -> (r: bool) {
        self.id.get() == other.id.get()
    }
}

impl<'a, K: Kernel> vstd::std_specs::cmp::PartialEqSpecImpl for TaskRef<'a, K> {
    open spec fn obeys_eq_spec() -> bool {
        true
    }

    open spec fn eq_spec(&self, other: &Self) -> bool {
        self@ == other@
    }
}

impl<'a, K: Kernel> Eq for TaskRef<'a, K> {
}

impl<'a, K: Kernel> View for TaskRef<'a, K> {
    type V = ID;

    /// The raw object ID.
    closed spec fn view(&self) -> ID {
        self.id.spec_get()
    }
}

/// # Object ID conversion
impl<'a, K: Kernel> TaskRef<'a, K> {
    /// Construct a `TaskRef` from a raw object ID.
    ///
    /// The caller asserts that `id` denotes a task that exists for at
    /// least `'a`.
    pub fn from_raw_nonnull(kernel: &'a K, id: NonNullID) -> (r: Self)
        ensures
            r@ == id.spec_get(),
    {
        TaskRef { id, kernel }
    }

    /// Get the raw object ID.
    pub fn as_raw(self) -> (r: ID)
        ensures
            r == self@,
            r != 0,
    {
        self.id.get()
    }

    /// Get the raw object ID as [`NonNullID`].
    pub fn as_raw_nonnull(self) -> (r: NonNullID)
        ensures
            r.spec_get() == self@,
    {
        self.id
    }
}

/// # Task Operations
impl<'a, K: Kernel> TaskRef<'a, K> {
    /// `act_tsk`: Pend an activation request for the task.
    pub fn activate(self) -> (r: Result<(), Error<ActivateError>>)
        ensures
            unit_result(r),
    {
        check(self.kernel.act_tsk(self.id.get()))
    }

    /// `can_act`: Cancel any pending activation requests for the task.
    /// Returns the number of cancelled requests.
    pub fn cancel_activate_all(self) -> (r: Result<usize, Error<CancelActivateAllError>>)
        ensures
            r matches Err(e) ==> e@ < 0,
    {
        match Error::<CancelActivateAllError>::err_if_negative(self.kernel.can_act(self.id.get()) as isize) {
            Ok(n) => Ok(n as usize),
            Err(e) => Err(e),
        }
    }

    /// `chg_pri`: Change the task's base priority.
    pub fn set_priority(self, new_priority: Priority) -> (r: Result<(), Error<SetPriorityError>>)
        ensures
            unit_result(r),
    {
        check(self.kernel.chg_pri(self.id.get(), new_priority))
    }

    /// `get_pri`: Get the task's priority.
    pub fn priority(self) -> (r: Result<Priority, Error<PriorityError>>)
        ensures
            r matches Err(e) ==> e@ < 0,
    {
        let mut pri: PRI = 0;
        let code = self.kernel.get_pri(self.id.get(), &mut pri);
        match check(code) {
            Ok(()) => Ok(pri),
            Err(e) => Err(e),
        }
    }

    /// `del_tsk`: Delete a task.
    ///
    /// The caller asserts that no owning handle or other reference is used
    /// for the task afterwards.
    pub fn delete(self) -> (r: Result<(), Error<DeleteError>>)
        ensures
            unit_result(r),
    {
        check(self.kernel.del_tsk(self.id.get()))
    }

    /// `get_tst`: Get the task's state. A state value that the kernel does
    /// not define is a kernel integrity error.
    pub fn state(self) -> (r: Result<State, Error<StateError>>)
        ensures
            r matches Err(e) ==> e@ < 0,
    {
        let mut stat: STAT = 0;
        let code = self.kernel.get_tst(self.id.get(), &mut stat);
        match check(code) {
            Ok(()) => match State::from_abi(stat) {
                Some(s) => Ok(s),
                None => Err(integrity_error()),
            },
            Err(e) => Err(e),
        }
    }

    /// `ref_tsk`: Get the task's general information. A state value that the
    /// kernel does not define is a kernel integrity error.
    pub fn info(self) -> (r: Result<Info, Error<InfoError>>)
        ensures
            r matches Err(e) ==> e@ < 0,
    {
        let mut raw = T_RTSK {
            tskstat: 0,
            tskpri: 0,
            tskbpri: 0,
            tskwait: 0,
            wobjid: 0,
            lefttmo: 0,
            actcnt: 0,
            wupcnt: 0,
            raster: 0,
            dister: 0,
        };
        let code = self.kernel.ref_tsk(self.id.get(), &mut raw);
        match check(code) {
            Ok(()) => match State::from_abi(raw.tskstat) {
                Some(_) => Ok(Info { raw }),
                None => Err(integrity_error()),
            },
            Err(e) => Err(e),
        }
    }
}

/// # Task Dependent Synchronization
impl<'a, K: Kernel> TaskRef<'a, K> {
    /// `wup_tsk`: Pend a wake up request for the task.
    pub fn wake(self) -> (r: Result<(), Error<WakeError>>)
        ensures
            unit_result(r),
    {
        check(self.kernel.wup_tsk(self.id.get()))
    }

    /// `can_wup`: Cancel any wake up requests for the task. Returns the
    /// number of cancelled requests.
    pub fn cancel_wake_all(self) -> (r: Result<usize, Error<CancelWakeAllError>>)
        ensures
            r matches Err(e) ==> e@ < 0,
    {
        match Error::<CancelWakeAllError>::err_if_negative(self.kernel.can_wup(self.id.get()) as isize) {
            Ok(n) => Ok(n as usize),
            Err(e) => Err(e),
        }
    }

    /// `rel_wai`: Forcibly release the task from waiting.
    pub fn release_wait(self) -> (r: Result<(), Error<ReleaseWaitError>>)
        ensures
            unit_result(r),
    {
        check(self.kernel.rel_wai(self.id.get()))
    }

    /// `sus_tsk`: Suspend the task.
    pub fn suspend(self) -> (r: Result<(), Error<SuspendError>>)
        ensures
            unit_result(r),
    {
        check(self.kernel.sus_tsk(self.id.get()))
    }

    /// `rsm_tsk`: Resume the task.
    pub fn resume(self) -> (r: Result<(), Error<ResumeError>>)
        ensures
            unit_result(r),
    {
        check(self.kernel.rsm_tsk(self.id.get()))
    }
}

/// # Task Termination
impl<'a, K: Kernel> TaskRef<'a, K> {
    /// `ter_tsk`: Terminate the task. Destructors of the task's values do not
    /// run.
    pub fn terminate(self) -> (r: Result<(), Error<TerminateError>>)
        ensures
            unit_result(r),
    {
        check(self.kernel.ter_tsk(self.id.get()))
    }

    /// `ras_ter`: Pend a termination request for the task.
    pub fn raise_termination(self) -> (r: Result<(), Error<RaiseTerminationError>>)
        ensures
            unit_result(r),
    {
        check(self.kernel.ras_ter(self.id.get()))
    }
}

/// Get a reference to the current task.
///
/// Fails with [`BadContextError`] outside of a task context, and likewise if
/// the kernel declines to name the current task.
pub fn current<'a, K: Kernel>(kernel: &'a K) -> (r: Result<Current<'a, K>, BadContextError>) {
    if crate::kernel::is_task_context(kernel) {
        current_from(kernel, current_id(kernel))
    } else {
        Err(BadContextError(()))
    }
}

/// The current task, given what `get_tid` reported in a task context: a
/// task exactly when it named one.
fn current_from<'a, K: Kernel>(
    kernel: &'a K,
    id: Result<Option<NonNullID>, Error<CurrentIdError>>,
) -> (r: Result<Current<'a, K>, BadContextError>)
    ensures
        r is Ok <==> id matches Ok(Some(_)),
        r matches Ok(c) ==> (id matches Ok(Some(n)) && c@ == n.spec_get()),
{
    match id {
        Ok(Some(id)) => Ok(Current { inner: TaskRef { id, kernel } }),
        _ => Err(BadContextError(())),
    }
}

/// A reference to the current task, obtained by [`current`].
#[derive(Debug)]
pub struct Current<'a, K: Kernel> {
    inner: TaskRef<'a, K>,
}

impl<'a, K: Kernel> View for Current<'a, K> {
    type V = ID;

    /// The raw object ID.
    closed spec fn view(&self) -> ID {
        self.inner@
    }
}

impl<'a, K: Kernel> Current<'a, K> {
    /// Get the raw object ID.
    pub fn as_raw(&self) -> (r: ID)
        ensures
            r == self@,
            r != 0,
    {
        self.inner.as_raw()
    }

    /// Get the raw object ID as [`NonNullID`].
    pub fn as_raw_nonnull(&self) -> (r: NonNullID)
        ensures
            r.spec_get() == self@,
    {
        self.inner.as_raw_nonnull()
    }

    /// Borrow `Current` as [`TaskRef`].
    pub fn as_ref(&self) -> (r: TaskRef<'_, K>)
        ensures
            r@ == self@,
    {
        TaskRef { id: self.inner.id, kernel: self.inner.kernel }
    }
}

/// The placeholder for a builder's entry point before it is specified.
#[allow(non_camel_case_types)]
pub struct __start_is_not_specified__;

/// The placeholder for a builder's stack before it is specified.
#[allow(non_camel_case_types)]
pub struct __stack_is_not_specified__;

/// The placeholder for a builder's initial priority before it is specified.
#[allow(non_camel_case_types)]
pub struct __initial_priority_is_not_specified__;

/// The builder type for [tasks](Task). Created by [`Task::build`].
///
/// `Start`, `Stack` and `InitialPriority` are `()` once the respective field
/// is specified; only then can the builder finish.
pub struct Builder<'a, K: Kernel, Start, Stack, InitialPriority> {
    kernel: &'a K,
    start: Start,
    stack: Stack,
    initial_priority: InitialPriority,
    raw: T_CTSK,
}

/// The record after the entry point is set to `value`.
pub open spec fn with_start(raw: T_CTSK, value: Closure) -> T_CTSK {
    T_CTSK { task: value.0, exinf: value.1, ..raw }
}

/// The record after the stack is set to one of `size` bytes that the kernel
/// allocates.
pub open spec fn with_stack(raw: T_CTSK, size: usize) -> T_CTSK {
    T_CTSK { stksz: size, stk: 0, ..raw }
}

/// The record after the initial priority is set to `value`.
pub open spec fn with_initial_priority(raw: T_CTSK, value: Priority) -> T_CTSK {
    T_CTSK { itskpri: value, ..raw }
}

/// The three mandatory fields of a task builder may be set in any order:
/// all six orders give the same record.
pub proof fn lemma_mandatory_fields_commute(raw: T_CTSK, start: Closure, size: usize, priority: Priority)
    ensures
        ({
            let r = with_initial_priority(with_stack(with_start(raw, start), size), priority);
            &&& r == with_stack(with_initial_priority(with_start(raw, start), priority), size)
            &&& r == with_initial_priority(with_start(with_stack(raw, size), start), priority)
            &&& r == with_start(with_initial_priority(with_stack(raw, size), priority), start)
            &&& r == with_stack(with_start(with_initial_priority(raw, priority), start), size)
            &&& r == with_start(with_stack(with_initial_priority(raw, priority), size), start)
        }),
{
}

impl<'a, K: Kernel, Start, Stack, InitialPriority> View for Builder<'a, K, Start, Stack, InitialPriority> {
    type V = T_CTSK;

    /// The record so far.
    closed spec fn view(&self) -> T_CTSK {
        self.raw
    }
}

impl<'a, K: Kernel> Task<'a, K> {
    /// `acre_tsk`: Create a builder for `Task`.
    pub fn build(kernel: &'a K) -> (r: Builder<
        'a,
        K,
        __start_is_not_specified__,
        __stack_is_not_specified__,
        __initial_priority_is_not_specified__,
    >)
        ensures
            r@ == (T_CTSK { tskatr: TA_NULL, exinf: 0, task: 0, itskpri: 0, stksz: 0, stk: 0 }),
    {
        Builder {
            kernel,
            start: __start_is_not_specified__,
            stack: __stack_is_not_specified__,
            initial_priority: __initial_priority_is_not_specified__,
            raw: T_CTSK { tskatr: TA_NULL, exinf: 0, task: 0, itskpri: 0, stksz: 0, stk: 0 },
        }
    }
}

impl<'a, K: Kernel, Start, Stack, InitialPriority> Builder<'a, K, Start, Stack, InitialPriority> {
    /// (**Mandatory**) Specify the entry point.
    pub fn start(self, value: Closure) -> (r: Builder<'a, K, (), Stack, InitialPriority>)
        ensures
            r@ == with_start(self@, value),
    {
        Builder {
            kernel: self.kernel,
            start: (),
            stack: self.stack,
            initial_priority: self.initial_priority,
            raw: T_CTSK { task: value.0, exinf: value.1, ..self.raw },
        }
    }

    /// (**Mandatory**) Specify to automatically allocate a stack of the
    /// specified size in bytes.
    pub fn stack(self, size: usize) -> (r: Builder<'a, K, Start, (), InitialPriority>)
        ensures
            r@ == with_stack(self@, size),
    {
        Builder {
            kernel: self.kernel,
            start: self.start,
            stack: (),
            initial_priority: self.initial_priority,
            raw: T_CTSK { stksz: size, stk: 0, ..self.raw },
        }
    }

    /// (**Mandatory**) Specify the initial priority.
    pub fn initial_priority(self, value: Priority) -> (r: Builder<'a, K, Start, Stack, ()>)
        ensures
            r@ == with_initial_priority(self@, value),
    {
        Builder {
            kernel: self.kernel,
            start: self.start,
            stack: self.stack,
            initial_priority: (),
            raw: T_CTSK { itskpri: value, ..self.raw },
        }
    }
}

impl<'a, K: Kernel> Builder<'a, K, (), (), ()> {
    /// The record that [`Self::finish`] submits.
    pub fn record(&self) -> (r: T_CTSK)
        ensures
            r == self@,
    {
        self.raw
    }

    /// Create a task using the specified parameters.
    pub fn finish(self) -> (r: Result<Task<'a, K>, Error<BuildError>>)
        ensures
            r matches Err(e) ==> e@ < 0,
    {
        Task::created(self.kernel, self.kernel.acre_tsk(&self.raw))
    }
}

/// An owned task.
///
/// [Deletes] the task automatically when dropped. If the kernel refuses
/// the deletion, the destructor terminates the kernel (`ext_ker`): an object
/// that this handle owned alone cannot be undeletable unless an invariant is
/// broken.
///
/// [Deletes]: TaskRef::delete
#[derive(Debug)]
pub struct Task<'a, K: Kernel> {
    inner: TaskRef<'a, K>,
}

impl<'a, K: Kernel> PartialEq for Task<'a, K> {
    fn eq(&self, other: &Self) -> (r: bool) {
        self.inner.id.get() == other.inner.id.get()
    }
}

impl<'a, K: Kernel> vstd::std_specs::cmp::PartialEqSpecImpl for Task<'a, K> {
    open spec fn obeys_eq_spec() -> bool {
        true
    }

    open spec fn eq_spec(&self, other: &Self) -> bool {
        self@ == other@
    }
}

impl<'a, K: Kernel> Eq for Task<'a, K> {
}

impl<'a, K: Kernel> View for Task<'a, K> {
    type V = ID;

    /// The raw object ID.
    closed spec fn view(&self) -> ID {
        self.inner@
    }
}

impl<'a, K: Kernel> Drop for Task<'a, K> {
    /// Deletes the task, or terminates the kernel if that fails.
    ///
    /// Verus requires a destructor not to unwind. This one calls only
    /// [`Task::dispose`], verified code that does not panic, and
    /// the kernel's service calls, which [`Kernel`] requires not to unwind.
    #[verifier::external_body]
    fn drop(&mut self)
        opens_invariants none
        no_unwind
    {
        self.dispose();
    }
}

impl<'a, K: Kernel> Task<'a, K> {
    /// The outcome of a creation call that returned `code`: a handle owning
    /// the new object when `code` is a positive ID, the kernel integrity
    /// error `E_SYS` for the null ID, and the error `code` otherwise.
    fn created(kernel: &'a K, code: ER_ID) -> (r: Result<Self, Error<BuildError>>)
        ensures
            code > 0 ==> (r matches Ok(h) && h@ == code),
            code == 0 ==> (r matches Err(e) && e@ == E_SYS),
            code < 0 ==> (r matches Err(e) && e@ == code),
    {
        match Error::<BuildError>::err_if_negative(code as isize) {
            Ok(id) => match NonNullID::new(id as ID) {
                Some(id) => Ok(Task { inner: TaskRef { id, kernel } }),
                None => Err(Error::from_code(ErrorCode::new_unchecked(E_SYS as isize))),
            },
            Err(e) => Err(e),
        }
    }

    /// Deletes the task that this handle owns. If the kernel refuses, the
    /// handle's invariant is broken, and the kernel is terminated
    /// (`ext_ker`). Returns whether the deletion succeeded.
    fn dispose(&self) -> (deleted: bool) {
        match self.inner.delete() {
            Ok(()) => true,
            Err(_) => {
                let _ = self.inner.kernel.ext_ker();
                false
            },
        }
    }
}

impl<'a, K: Kernel> Task<'a, K> {
    /// Construct a `Task` from a raw object ID.
    ///
    /// The caller asserts that `id` denotes a task that exists and that
    /// nothing else owns.
    pub fn from_raw_nonnull(kernel: &'a K, id: NonNullID) -> (r: Self)
        ensures
            r@ == id.spec_get(),
    {
        Task { inner: TaskRef::from_raw_nonnull(kernel, id) }
    }

    /// Consume and "leak" `self`, returning a reference `TaskRef<'a>`.
    /// The task is not deleted.
    pub fn leak(self) -> (r: TaskRef<'a, K>)
        ensures
            r@ == self@,
    {
        let this = core::mem::ManuallyDrop::new(self);
        this.inner
    }

    /// Get the raw object ID.
    pub fn as_raw(&self) -> (r: ID)
        ensures
            r == self@,
            r != 0,
    {
        self.inner.as_raw()
    }

    /// Get the raw object ID as [`NonNullID`].
    pub fn as_raw_nonnull(&self) -> (r: NonNullID)
        ensures
            r.spec_get() == self@,
    {
        self.inner.as_raw_nonnull()
    }

    /// Borrow `Task` as [`TaskRef`].
    ///
    /// Use this to perform operations on tasks because most of the
    /// methods are implemented on `TaskRef` but not `Task`.
    pub fn as_ref(&self) -> (r: TaskRef<'_, K>)
        ensures
            r@ == self@,
    {
        TaskRef { id: self.inner.id, kernel: self.inner.kernel }
    }
}

} // verus!
