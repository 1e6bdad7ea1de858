//! Mutexes.
use vstd::prelude::*;

use crate::abi::{
    Kernel, NonNullID, ER_ID, E_CTX, E_DLT, E_ID, E_ILUSE, E_NOEXS, E_NOID, E_NOSPT, E_OBJ, E_PAR,
    E_RASTER, E_RLWAI, E_RSATR, E_SYS, E_TMOUT, ID, TA_CEILING, TA_INHERIT, TA_NULL, T_CMTX,
    T_RMTX,
};
use crate::error::{
    check, kind, unit_result, Error, ErrorCode, ErrorKind, Kind, Never, __Unstable,
};
use crate::task::Priority;
use crate::time::Timeout;
use crate::wait::QueueOrder;

verus! {

/// Error type for [`MutexRef::lock`].
#[derive(Debug, Clone, Copy, PartialEq, Eq)]
pub enum LockError {
    BadContext(Kind),
    /// The task is a restricted task.
    NotSupported(Kind),
    BadId(Kind),
    AccessDenied(Never),
    Released(Kind),
    TerminateRequest(Kind),
    Deleted(Kind),
    /// The calling task's priority is higher than the mutex's priority
    /// ceiling.
    ///
    /// # Rationale
    ///
    /// The `EINVAL` error of `pthread_mutex_lock`. This error kind is
    /// designed to accomodate any precondition violations that may occur
    /// in yet-to-be-seen kernels to be supported.
    BadParam(Kind),
    /// The calling task already owns the mutex.
    Deadlock(Kind),
}

impl ErrorKind for LockError {
    open spec fn spec_from_error_code(code: int) -> Option<Self> {
        if code == E_CTX {
            Some(LockError::BadContext(kind()))
        } else if code == E_NOSPT {
            Some(LockError::NotSupported(kind()))
        } else if code == E_ID || code == E_NOEXS {
            Some(LockError::BadId(kind()))
        } else if code == E_RLWAI {
            Some(LockError::Released(kind()))
        } else if code == E_RASTER {
            Some(LockError::TerminateRequest(kind()))
        } else if code == E_DLT {
            Some(LockError::Deleted(kind()))
        } else if code == E_ILUSE {
            Some(LockError::BadParam(kind()))
        } else if code == E_OBJ {
            Some(LockError::Deadlock(kind()))
        } else {
            None
        }
    }

    fn from_error_code(code: ErrorCode) -> (r: Option<Self>) {
        let c = code.get();
        if c == E_CTX as isize {
            Some(LockError::BadContext(Kind(__Unstable)))
        } else if c == E_NOSPT as isize {
            Some(LockError::NotSupported(Kind(__Unstable)))
        } else if c == E_ID as isize || c == E_NOEXS as isize {
            Some(LockError::BadId(Kind(__Unstable)))
        } else if c == E_RLWAI as isize {
            Some(LockError::Released(Kind(__Unstable)))
        } else if c == E_RASTER as isize {
            Some(LockError::TerminateRequest(Kind(__Unstable)))
        } else if c == E_DLT as isize {
            Some(LockError::Deleted(Kind(__Unstable)))
        } else if c == E_ILUSE as isize {
            Some(LockError::BadParam(Kind(__Unstable)))
        } else if c == E_OBJ as isize {
            Some(LockError::Deadlock(Kind(__Unstable)))
        } else {
            None
        }
    }
}

/// Error type for [`MutexRef::lock_timeout`].
#[derive(Debug, Clone, Copy, PartialEq, Eq)]
pub enum LockTimeoutError {
    BadContext(Kind),
    /// The task is a restricted task.
    NotSupported(Kind),
    BadId(Kind),
    AccessDenied(Never),
    Timeout(Kind),
    Released(Kind),
    TerminateRequest(Kind),
    Deleted(Kind),
    /// The calling task's priority is higher than the mutex's priority
    /// ceiling.
    ///
    /// # Rationale
    ///
    /// The `EINVAL` error of `pthread_mutex_lock`. This error kind is
    /// designed to accomodate any precondition violations that may occur
    /// in yet-to-be-seen kernels to be supported.
    BadParam(Kind),
    /// The calling task already owns the mutex.
    Deadlock(Kind),
}

impl ErrorKind for LockTimeoutError {
    open spec fn spec_from_error_code(code: int) -> Option<Self> {
        if code == E_CTX {
            Some(LockTimeoutError::BadContext(kind()))
        } else if code == E_NOSPT {
            Some(LockTimeoutError::NotSupported(kind()))
        } else if code == E_ID || code == E_NOEXS {
            Some(LockTimeoutError::BadId(kind()))
        } else if code == E_TMOUT {
            Some(LockTimeoutError::Timeout(kind()))
        } else if code == E_RLWAI {
            Some(LockTimeoutError::Released(kind()))
        } else if code == E_RASTER {
            Some(LockTimeoutError::TerminateRequest(kind()))
        } else if code == E_DLT {
            Some(LockTimeoutError::Deleted(kind()))
        } else if code == E_ILUSE {
            Some(LockTimeoutError::BadParam(kind()))
        } else if code == E_OBJ {
            Some(LockTimeoutError::Deadlock(kind()))
        } else {
            None
        }
    }

    fn from_error_code(code: ErrorCode) -> (r: Option<Self>) {
        let c = code.get();
        if c == E_CTX as isize {
            Some(LockTimeoutError::BadContext(Kind(__Unstable)))
        } else if c == E_NOSPT as isize {
            Some(LockTimeoutError::NotSupported(Kind(__Unstable)))
        } else if c == E_ID as isize || c == E_NOEXS as isize {
            Some(LockTimeoutError::BadId(Kind(__Unstable)))
        } else if c == E_TMOUT as isize {
            Some(LockTimeoutError::Timeout(Kind(__Unstable)))
        } else if c == E_RLWAI as isize {
            Some(LockTimeoutError::Released(Kind(__Unstable)))
        } else if c == E_RASTER as isize {
            Some(LockTimeoutError::TerminateRequest(Kind(__Unstable)))
        } else if c == E_DLT as isize {
            Some(LockTimeoutError::Deleted(Kind(__Unstable)))
        } else if c == E_ILUSE as isize {
            Some(LockTimeoutError::BadParam(Kind(__Unstable)))
        } else if c == E_OBJ as isize {
            Some(LockTimeoutError::Deadlock(Kind(__Unstable)))
        } else {
            None
        }
    }
}

/// Error type for [`MutexRef::try_lock`].
#[derive(Debug, Clone, Copy, PartialEq, Eq)]
pub enum TryLockError {
    BadContext(Kind),
    BadId(Kind),
    AccessDenied(Never),
    /// The calling task's priority is higher than the mutex's priority
    /// ceiling.
    ///
    /// # Rationale
    ///
    /// The `EINVAL` error of `pthread_mutex_lock`. This error kind is
    /// designed to accomodate any precondition violations that may occur
    /// in yet-to-be-seen kernels to be supported.
    BadParam(Kind),
    /// The calling task already owns the mutex.
    Deadlock(Kind),
    /// The object is not available without waiting.
    Timeout(Kind),
}

impl ErrorKind for TryLockError {
    open spec fn spec_from_error_code(code: int) -> Option<Self> {
        if code == E_CTX {
            Some(TryLockError::BadContext(kind()))
        } else if code == E_ID || code == E_NOEXS {
            Some(TryLockError::BadId(kind()))
        } else if code == E_ILUSE {
            Some(TryLockError::BadParam(kind()))
        } else if code == E_OBJ {
            Some(TryLockError::Deadlock(kind()))
        } else if code == E_TMOUT {
            Some(TryLockError::Timeout(kind()))
        } else {
            None
        }
    }

    fn from_error_code(code: ErrorCode) -> (r: Option<Self>) {
        let c = code.get();
        if c == E_CTX as isize {
            Some(TryLockError::BadContext(Kind(__Unstable)))
        } else if c == E_ID as isize || c == E_NOEXS as isize {
            Some(TryLockError::BadId(Kind(__Unstable)))
        } else if c == E_ILUSE as isize {
            Some(TryLockError::BadParam(Kind(__Unstable)))
        } else if c == E_OBJ as isize {
            Some(TryLockError::Deadlock(Kind(__Unstable)))
        } else if c == E_TMOUT as isize {
            Some(TryLockError::Timeout(Kind(__Unstable)))
        } else {
            None
        }
    }
}

/// Error type for [`MutexRef::unlock`].
#[derive(Debug, Clone, Copy, PartialEq, Eq)]
pub enum UnlockError {
    BadContext(Kind),
    BadId(Kind),
    AccessDenied(Never),
    /// The mutex is not the lastly-locked mutex currently owned by the
    /// calling task (TOPPERS third-generation kernels, `E_OBJ`). The mutex
    /// is not currently owned by the calling task (μITRON 4.0 and
    /// μT-Kernel, `E_ILUSE`).
    ///
    /// # Rationale
    ///
    /// The name was inspired by the FTP and SMTP error 503 (bad sequence of
    /// commands) and SOLID `SOLID_ERR_BADSEQUENCE`. A mutex is intended
    /// to be used in a specific sequence (lock followed by unlock). The
    /// TOPPERS third-generation kernels impose a more stringent requirement
    /// on the sequence: mutexes must be unlocked in a lock-reverse order.
    BadSequence(Kind),
}

impl ErrorKind for UnlockError {
    open spec fn spec_from_error_code(code: int) -> Option<Self> {
        if code == E_CTX {
            Some(UnlockError::BadContext(kind()))
        } else if code == E_ID || code == E_NOEXS {
            Some(UnlockError::BadId(kind()))
        } else if code == E_OBJ {
            Some(UnlockError::BadSequence(kind()))
        } else {
            None
        }
    }

    fn from_error_code(code: ErrorCode) -> (r: Option<Self>) {
        let c = code.get();
        if c == E_CTX as isize {
            Some(UnlockError::BadContext(Kind(__Unstable)))
        } else if c == E_ID as isize || c == E_NOEXS as isize {
            Some(UnlockError::BadId(Kind(__Unstable)))
        } else if c == E_OBJ as isize {
            Some(UnlockError::BadSequence(Kind(__Unstable)))
        } else {
            None
        }
    }
}

/// Error type for [`MutexRef::initialize`].
#[derive(Debug, Clone, Copy, PartialEq, Eq)]
pub enum InitializeError {
    BadContext(Kind),
    BadId(Kind),
    AccessDenied(Never),
}

impl ErrorKind for InitializeError {
    open spec fn spec_from_error_code(code: int) -> Option<Self> {
        if code == E_CTX {
            Some(InitializeError::BadContext(kind()))
        } else if code == E_ID || code == E_NOEXS {
            Some(InitializeError::BadId(kind()))
        } else {
            None
        }
    }

    fn from_error_code(code: ErrorCode) -> (r: Option<Self>) {
        let c = code.get();
        if c == E_CTX as isize {
            Some(InitializeError::BadContext(Kind(__Unstable)))
        } else if c == E_ID as isize || c == E_NOEXS as isize {
            Some(InitializeError::BadId(Kind(__Unstable)))
        } else {
            None
        }
    }
}

/// Error type for [`MutexRef::info`].
#[derive(Debug, Clone, Copy, PartialEq, Eq)]
pub enum InfoError {
    BadContext(Kind),
    BadId(Kind),
    AccessDenied(Never),
}

impl ErrorKind for InfoError {
    open spec fn spec_from_error_code(code: int) -> Option<Self> {
        if code == E_CTX {
            Some(InfoError::BadContext(kind()))
        } else if code == E_ID || code == E_NOEXS {
            Some(InfoError::BadId(kind()))
        } else {
            None
        }
    }

    fn from_error_code(code: ErrorCode) -> (r: Option<Self>) {
        let c = code.get();
        if c == E_CTX as isize {
            Some(InfoError::BadContext(Kind(__Unstable)))
        } else if c == E_ID as isize || c == E_NOEXS as isize {
            Some(InfoError::BadId(Kind(__Unstable)))
        } else {
            None
        }
    }
}

/// Error type for [`Mutex::build`].
#[derive(Debug, Clone, Copy, PartialEq, Eq)]
pub enum BuildError {
    BadContext(Kind),
    AccessDenied(Never),
    /// Ran out of mutex IDs.
    OutOfMemory(Kind),
    /// Bad parameter.
    ///
    ///  - The priority ceiling is out of range (NGKI2037, `E_PAR`).
    ///
    ///  - The priority ceiling refers to a priority value which is
    ///    configured to use subpriorities (NGKI3682, `E_ILUSE`).
    ///
    ///  - Unrecognized flags are specified (NGKI2025, `E_RSATR`).
    ///
    BadParam(Kind),
}

impl ErrorKind for BuildError {
    open spec fn spec_from_error_code(code: int) -> Option<Self> {
        if code == E_CTX {
            Some(BuildError::BadContext(kind()))
        } else if code == E_NOID {
            Some(BuildError::OutOfMemory(kind()))
        } else if code == E_PAR || code == E_RSATR {
            Some(BuildError::BadParam(kind()))
        } else {
            None
        }
    }

    fn from_error_code(code: ErrorCode) -> (r: Option<Self>) {
        let c = code.get();
        if c == E_CTX as isize {
            Some(BuildError::BadContext(Kind(__Unstable)))
        } else if c == E_NOID as isize {
            Some(BuildError::OutOfMemory(Kind(__Unstable)))
        } else if c == E_PAR as isize || c == E_RSATR as isize {
            Some(BuildError::BadParam(Kind(__Unstable)))
        } else {
            None
        }
    }
}

/// Error type for [`MutexRef::delete`].
#[derive(Debug, Clone, Copy, PartialEq, Eq)]
pub enum DeleteError {
    BadContext(Kind),
    BadId(Kind),
    AccessDenied(Never),
    BadState(Kind),
}

impl ErrorKind for DeleteError {
    open spec fn spec_from_error_code(code: int) -> Option<Self> {
        if code == E_CTX {
            Some(DeleteError::BadContext(kind()))
        } else if code == E_ID || code == E_NOEXS {
            Some(DeleteError::BadId(kind()))
        } else if code == E_OBJ {
            Some(DeleteError::BadState(kind()))
        } else {
            None
        }
    }

    fn from_error_code(code: ErrorCode) -> (r: Option<Self>) {
        let c = code.get();
        if c == E_CTX as isize {
            Some(DeleteError::BadContext(Kind(__Unstable)))
        } else if c == E_ID as isize || c == E_NOEXS as isize {
            Some(DeleteError::BadId(Kind(__Unstable)))
        } else if c == E_OBJ as isize {
            Some(DeleteError::BadState(Kind(__Unstable)))
        } else {
            None
        }
    }
}
/// Mutex information returned by [`MutexRef::info`].
#[derive(Debug, Clone, Copy)]
pub struct Info {
    raw: T_RMTX,
}

impl View for Info {
    type V = T_RMTX;

    closed spec fn view(&self) -> T_RMTX {
        self.raw
    }
}

impl Info {
    /// Get the owning task's ID.
    pub fn owning_task_id(&self) -> (r: Option<NonNullID>)
        ensures
            r is Some <==> self@.htskid != 0,
            r matches Some(id) ==> id.spec_get() == self@.htskid,
    {
        NonNullID::new(self.raw.htskid)
    }

    /// Get the first waiting task's ID.
    pub fn first_waiting_task_id(&self) -> (r: Option<NonNullID>)
        ensures
            r is Some <==> self@.wtskid != 0,
            r matches Some(id) ==> id.spec_get() == self@.wtskid,
    {
        NonNullID::new(self.raw.wtskid)
    }
}

/// A borrowed reference to a mutex.
///
/// The lifetime `'a` bounds both the borrow of the kernel and the time for
/// which the mutex is known to exist.
#[derive(Debug)]
pub struct MutexRef<'a, K: Kernel> {
    id: NonNullID,
    kernel: &'a K,
}

impl<'a, K: Kernel> Clone for MutexRef<'a, K> {
    fn clone(&self) -> (r: Self)
        ensures
            r == *self,
    {
        *self
    }
}

impl<'a, K: Kernel> Copy for MutexRef<'a, K> {
}

impl<'a, K: Kernel> PartialEq for MutexRef<'a, K> {
    fn eq(&self, other: &Self) -> (r: bool) {
        self.id.get() == other.id.get()
    }
}

impl<'a, K: Kernel> vstd::std_specs::cmp::PartialEqSpecImpl for MutexRef<'a, K> {
    open spec fn obeys_eq_spec() -> bool {
        true
    }

    open spec fn eq_spec(&self, other: &Self) -> bool {
        self@ == other@
    }
}

impl<'a, K: Kernel> Eq for MutexRef<'a, K> {
}

impl<'a, K: Kernel> View for MutexRef<'a, K> {
    type V = ID;

    /// The raw object ID.
    closed spec fn view(&self) -> ID {
        self.id.spec_get()
    }
}

/// # Object ID conversion
impl<'a, K: Kernel> MutexRef<'a, K> {
    /// Construct a `MutexRef` from a raw object ID.
    ///
    /// The caller asserts that `id` denotes a mutex that exists for at
    /// least `'a`.
    pub fn from_raw_nonnull(kernel: &'a K, id: NonNullID) -> (r: Self)
        ensures
            r@ == id.spec_get(),
    {
        MutexRef { id, kernel }
    }

    /// Get the raw object ID.
    pub fn as_raw(self) -> (r: ID)
        ensures
            r == self@,
            r != 0,
    {
        self.id.get()
    }

    /// Get the raw object ID as [`NonNullID`].
    pub fn as_raw_nonnull(self) -> (r: NonNullID)
        ensures
            r.spec_get() == self@,
    {
        self.id
    }
}

/// # Management
impl<'a, K: Kernel> MutexRef<'a, K> {
    /// `del_mtx`: Delete the mutex.
    ///
    /// The caller asserts that no owning handle or other reference is used
    /// for the mutex afterwards.
    pub fn delete(self) -> (r: Result<(), Error<DeleteError>>)
        ensures
            unit_result(r),
    {
        check(self.kernel.del_mtx(self.id.get()))
    }

    /// `ref_mtx`: Get the mutex's general information.
    pub fn info(self) -> (r: Result<Info, Error<InfoError>>)
        ensures
            r matches Err(e) ==> e@ < 0,
    {
        let mut raw = T_RMTX { htskid: 0, wtskid: 0 };
        match check(self.kernel.ref_mtx(self.id.get(), &mut raw)) {
            Ok(()) => Ok(Info { raw }),
            Err(e) => Err(e),
        }
    }
}

/// # Mutex Operations
impl<'a, K: Kernel> MutexRef<'a, K> {
    /// `loc_mtx`: Lock the mutex. Blocks the current task while another task
    /// holds it.
    pub fn lock(self) -> (r: Result<(), Error<LockError>>)
        ensures
            unit_result(r),
    {
        check(self.kernel.loc_mtx(self.id.get()))
    }

    /// `tloc_mtx`: Lock the mutex. Blocks the current task with timeout while
    /// another task holds it.
    pub fn lock_timeout(self, tmo: Timeout) -> (r: Result<(), Error<LockTimeoutError>>)
        ensures
            unit_result(r),
    {
        check(self.kernel.tloc_mtx(self.id.get(), tmo.as_raw()))
    }

    /// `ploc_mtx`: Lock the mutex. Fails and returns immediately if another
    /// task holds it.
    pub fn try_lock(self) -> (r: Result<(), Error<TryLockError>>)
        ensures
            unit_result(r),
    {
        check(self.kernel.ploc_mtx(self.id.get()))
    }

    /// `unl_mtx`: Unlock the mutex.
    pub fn unlock(self) -> (r: Result<(), Error<UnlockError>>)
        ensures
            unit_result(r),
    {
        check(self.kernel.unl_mtx(self.id.get()))
    }

    /// `ini_mtx`: Initialize the mutex.
    pub fn initialize(self) -> (r: Result<(), Error<InitializeError>>)
        ensures
            unit_result(r),
    {
        check(self.kernel.ini_mtx(self.id.get()))
    }
}

/// Specifies a priority protection protocol used by a [mutex](Mutex).
#[derive(Debug, Clone, Copy, PartialEq, Eq)]
pub enum PriorityProtection {
    /// No priority protection.
    NoProtection,
    /// The priority ceiling protocol.
    Ceiling {
        /// Specifies the priority ceiling.
        priority: Priority,
    },
    /// The priority inheritance protocol.
    Inherit,
}

impl PriorityProtection {
    /// Return `Some(Self::Inherit)` if it's supported by the target kernel,
    /// which it is.
    pub fn inherit() -> (r: Option<Self>)
        ensures
            r == Some(PriorityProtection::Inherit),
    {
        Some(PriorityProtection::Inherit)
    }
}

/// The builder type for [mutexes](Mutex). Created by [`Mutex::build`].
pub struct Builder<'a, K: Kernel> {
    kernel: &'a K,
    raw: T_CMTX,
    priority_protection: PriorityProtection,
}

/// What a mutex builder holds: the record so far and the protocol.
pub struct BuilderState {
    pub raw: T_CMTX,
    pub priority_protection: PriorityProtection,
}

impl BuilderState {
    /// The record that finishing submits: the protocol, if any, takes the
    /// attribute over from the queue order.
    pub open spec fn record(self) -> T_CMTX {
        match self.priority_protection {
            PriorityProtection::NoProtection => self.raw,
            PriorityProtection::Ceiling { priority } => T_CMTX { mtxatr: TA_CEILING, ceilpri: priority },
            PriorityProtection::Inherit => T_CMTX { mtxatr: TA_INHERIT, ..self.raw },
        }
    }
}

impl<'a, K: Kernel> View for Builder<'a, K> {
    type V = BuilderState;

    closed spec fn view(&self) -> BuilderState {
        BuilderState { raw: self.raw, priority_protection: self.priority_protection }
    }
}

impl<'a, K: Kernel> Mutex<'a, K> {
    /// `acre_mtx`: Create a builder for `Mutex`.
    pub fn build(kernel: &'a K) -> (r: Builder<'a, K>)
        ensures
            r@.raw == (T_CMTX { mtxatr: TA_NULL, ceilpri: 0 }),
            r@.priority_protection == PriorityProtection::NoProtection,
    {
        Builder {
            kernel,
            raw: T_CMTX { mtxatr: TA_NULL, ceilpri: 0 },
            priority_protection: PriorityProtection::NoProtection,
        }
    }
}

impl<'a, K: Kernel> Builder<'a, K> {
    /// Specify the priority protection mechanism to use. Defaults to `NoProtection`
    /// when unspecified.
    pub fn priority_protection(self, value: PriorityProtection) -> (r: Self)
        ensures
            r@.raw == self@.raw,
            r@.priority_protection == value,
    {
        Builder { kernel: self.kernel, raw: self.raw, priority_protection: value }
    }

    /// Specify the queue order. Defaults to `Fifo` when unspecified.
    pub fn queue_order(self, value: QueueOrder) -> (r: Self)
        ensures
            r@.raw == (T_CMTX { mtxatr: value.spec_atr(), ..self@.raw }),
            r@.priority_protection == self@.priority_protection,
    {
        Builder {
            kernel: self.kernel,
            raw: T_CMTX { mtxatr: value.as_raw_atr(), ..self.raw },
            priority_protection: self.priority_protection,
        }
    }

    /// The record that [`Self::finish`] submits.
    pub fn record(&self) -> (r: T_CMTX)
        ensures
            r == self@.record(),
    {
        match self.priority_protection {
            PriorityProtection::NoProtection => self.raw,
            PriorityProtection::Ceiling { priority } => T_CMTX { mtxatr: TA_CEILING, ceilpri: priority },
            PriorityProtection::Inherit => T_CMTX { mtxatr: TA_INHERIT, ..self.raw },
        }
    }

    /// Create a mutex using the specified parameters.
    pub fn finish(self) -> (r: Result<Mutex<'a, K>, Error<BuildError>>)
        ensures
            r matches Err(e) ==> e@ < 0,
    {
        let raw = self.record();
        Mutex::created(self.kernel, self.kernel.acre_mtx(&raw))
    }
}

/// An owned mutex.
///
/// [Deletes] the mutex automatically when dropped. If the kernel refuses
/// the deletion, the destructor terminates the kernel (`ext_ker`): an object
/// that this handle owned alone cannot be undeletable unless an invariant is
/// broken.
///
/// [Deletes]: MutexRef::delete
#[derive(Debug)]
pub struct Mutex<'a, K: Kernel> {
    inner: MutexRef<'a, K>,
}

impl<'a, K: Kernel> PartialEq for Mutex<'a, K> {
    fn eq(&self, other: &Self) -> (r: bool) {
        self.inner.id.get() == other.inner.id.get()
    }
}

impl<'a, K: Kernel> vstd::std_specs::cmp::PartialEqSpecImpl for Mutex<'a, K> {
    open spec fn obeys_eq_spec() -> bool {
        true
    }

    open spec fn eq_spec(&self, other: &Self) -> bool {
        self@ == other@
    }
}

impl<'a, K: Kernel> Eq for Mutex<'a, K> {
}

impl<'a, K: Kernel> View for Mutex<'a, K> {
    type V = ID;

    /// The raw object ID.
    closed spec fn view(&self) -> ID {
        self.inner@
    }
}

impl<'a, K: Kernel> Drop for Mutex<'a, K> {
    /// Deletes the mutex, or terminates the kernel if that fails.
    ///
    /// Verus requires a destructor not to unwind. This one calls only
    /// [`Mutex::dispose`], verified code that does not panic, and
    /// the kernel's service calls, which [`Kernel`] requires not to unwind.
    #[verifier::external_body]
    fn drop(&mut self)
        opens_invariants none
        no_unwind
    {
        self.dispose();
    }
}

impl<'a, K: Kernel> Mutex<'a, K> {
    /// The outcome of a creation call that returned `code`: a handle owning
    /// the new object when `code` is a positive ID, the kernel integrity
    /// error `E_SYS` for the null ID, and the error `code` otherwise.
    fn created(kernel: &'a K, code: ER_ID) -> (r: Result<Self, Error<BuildError>>)
        ensures
            code > 0 ==> (r matches Ok(h) && h@ == code),
            code == 0 ==> (r matches Err(e) && e@ == E_SYS),
            code < 0 ==> (r matches Err(e) && e@ == code),
    {
        match Error::<BuildError>::err_if_negative(code as isize) {
            Ok(id) => match NonNullID::new(id as ID) {
                Some(id) => Ok(Mutex { inner: MutexRef { id, kernel } }),
                None => Err(Error::from_code(ErrorCode::new_unchecked(E_SYS as isize))),
            },
            Err(e) => Err(e),
        }
    }

    /// Deletes the mutex that this handle owns. If the kernel refuses, the
    /// handle's invariant is broken, and the kernel is terminated
    /// (`ext_ker`). Returns whether the deletion succeeded.
    fn dispose(&self) -> (deleted: bool) {
        match self.inner.delete() {
            Ok(()) => true,
            Err(_) => {
                let _ = self.inner.kernel.ext_ker();
                false
            },
        }
    }
}

impl<'a, K: Kernel> Mutex<'a, K> {
    /// Construct a `Mutex` from a raw object ID.
    ///
    /// The caller asserts that `id` denotes a mutex that exists and that
    /// nothing else owns.
    pub fn from_raw_nonnull(kernel: &'a K, id: NonNullID) -> (r: Self)
        ensures
            r@ == id.spec_get(),
    {
        Mutex { inner: MutexRef::from_raw_nonnull(kernel, id) }
    }

    /// Consume and "leak" `self`, returning a reference `MutexRef<'a>`.
    /// The mutex is not deleted.
    pub fn leak(self) -> (r: MutexRef<'a, K>)
        ensures
            r@ == self@,
    {
        let this = core::mem::ManuallyDrop::new(self);
        this.inner
    }

    /// Get the raw object ID.
    pub fn as_raw(&self) -> (r: ID)
        ensures
            r == self@,
            r != 0,
    {
        self.inner.as_raw()
    }

    /// Get the raw object ID as [`NonNullID`].
    pub fn as_raw_nonnull(&self) -> (r: NonNullID)
        ensures
            r.spec_get() == self@,
    {
        self.inner.as_raw_nonnull()
    }

    /// Borrow `Mutex` as [`MutexRef`].
    ///
    /// Use this to perform operations on mutexes because most of the
    /// methods are implemented on `MutexRef` but not `Mutex`.
    pub fn as_ref(&self) -> (r: MutexRef<'_, K>)
        ensures
            r@ == self@,
    {
        MutexRef { id: self.inner.id, kernel: self.inner.kernel }
    }
}

} // verus!
