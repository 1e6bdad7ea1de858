//! Semaphores.
use vstd::prelude::*;

use crate::abi::{
    Kernel, NonNullID, ER_ID, E_CTX, E_DLT, E_ID, E_NOEXS, E_NOID, E_NOSPT, E_OBJ, E_PAR, E_QOVR,
    E_RASTER, E_RLWAI, E_RSATR, E_SYS, E_TMOUT, ID, TA_NULL, T_CSEM, T_RSEM,
};
use crate::error::{
    check, kind, unit_result, Error, ErrorCode, ErrorKind, Kind, Never, __Unstable,
};
use crate::time::Timeout;
use crate::wait::QueueOrder;

verus! {

/// Error type for [`SemaphoreRef::signal`].
#[derive(Debug, Clone, Copy, PartialEq, Eq)]
pub enum SignalError {
    BadContext(Kind),
    BadId(Kind),
    AccessDenied(Never),
    QueueOverflow(Kind),
}

impl ErrorKind for SignalError {
    open spec fn spec_from_error_code(code: int) -> Option<Self> {
        if code == E_CTX {
            Some(SignalError::BadContext(kind()))
        } else if code == E_ID || code == E_NOEXS {
            Some(SignalError::BadId(kind()))
        } else if code == E_QOVR {
            Some(SignalError::QueueOverflow(kind()))
        } else {
            None
        }
    }

    fn from_error_code(code: ErrorCode) -> (r: Option<Self>) {
        let c = code.get();
        if c == E_CTX as isize {
            Some(SignalError::BadContext(Kind(__Unstable)))
        } else if c == E_ID as isize || c == E_NOEXS as isize {
            Some(SignalError::BadId(Kind(__Unstable)))
        } else if c == E_QOVR as isize {
            Some(SignalError::QueueOverflow(Kind(__Unstable)))
        } else {
            None
        }
    }
}

/// Error type for [`SemaphoreRef::wait`].
#[derive(Debug, Clone, Copy, PartialEq, Eq)]
pub enum WaitError {
    BadContext(Kind),
    /// The task is a restricted task.
    NotSupported(Kind),
    BadId(Kind),
    AccessDenied(Never),
    Released(Kind),
    TerminateRequest(Kind),
    Deleted(Kind),
}

impl ErrorKind for WaitError {
    open spec fn spec_from_error_code(code: int) -> Option<Self> {
        if code == E_CTX {
            Some(WaitError::BadContext(kind()))
        } else if code == E_NOSPT {
            Some(WaitError::NotSupported(kind()))
        } else if code == E_ID || code == E_NOEXS {
            Some(WaitError::BadId(kind()))
        } else if code == E_RLWAI {
            Some(WaitError::Released(kind()))
        } else if code == E_RASTER {
            Some(WaitError::TerminateRequest(kind()))
        } else if code == E_DLT {
            Some(WaitError::Deleted(kind()))
        } else {
            None
        }
    }

    fn from_error_code(code: ErrorCode) -> (r: Option<Self>) {
        let c = code.get();
        if c == E_CTX as isize {
            Some(WaitError::BadContext(Kind(__Unstable)))
        } else if c == E_NOSPT as isize {
            Some(WaitError::NotSupported(Kind(__Unstable)))
        } else if c == E_ID as isize || c == E_NOEXS as isize {
            Some(WaitError::BadId(Kind(__Unstable)))
        } else if c == E_RLWAI as isize {
            Some(WaitError::Released(Kind(__Unstable)))
        } else if c == E_RASTER as isize {
            Some(WaitError::TerminateRequest(Kind(__Unstable)))
        } else if c == E_DLT as isize {
            Some(WaitError::Deleted(Kind(__Unstable)))
        } else {
            None
        }
    }
}

/// Error type for [`SemaphoreRef::wait_timeout`].
#[derive(Debug, Clone, Copy, PartialEq, Eq)]
pub enum WaitTimeoutError {
    BadContext(Kind),
    /// The task is a restricted task.
    NotSupported(Kind),
    BadId(Kind),
    AccessDenied(Never),
    Timeout(Kind),
    Released(Kind),
    TerminateRequest(Kind),
    Deleted(Kind),
}

impl ErrorKind for WaitTimeoutError {
    open spec fn spec_from_error_code(code: int) -> Option<Self> {
        if code == E_CTX {
            Some(WaitTimeoutError::BadContext(kind()))
        } else if code == E_NOSPT {
            Some(WaitTimeoutError::NotSupported(kind()))
        } else if code == E_ID || code == E_NOEXS {
            Some(WaitTimeoutError::BadId(kind()))
        } else if code == E_TMOUT {
            Some(WaitTimeoutError::Timeout(kind()))
        } else if code == E_RLWAI {
            Some(WaitTimeoutError::Released(kind()))
        } else if code == E_RASTER {
            Some(WaitTimeoutError::TerminateRequest(kind()))
        } else if code == E_DLT {
            Some(WaitTimeoutError::Deleted(kind()))
        } else {
            None
        }
    }

    fn from_error_code(code: ErrorCode) -> (r: Option<Self>) {
        let c = code.get();
        if c == E_CTX as isize {
            Some(WaitTimeoutError::BadContext(Kind(__Unstable)))
        } else if c == E_NOSPT as isize {
            Some(WaitTimeoutError::NotSupported(Kind(__Unstable)))
        } else if c == E_ID as isize || c == E_NOEXS as isize {
            Some(WaitTimeoutError::BadId(Kind(__Unstable)))
        } else if c == E_TMOUT as isize {
            Some(WaitTimeoutError::Timeout(Kind(__Unstable)))
        } else if c == E_RLWAI as isize {
            Some(WaitTimeoutError::Released(Kind(__Unstable)))
        } else if c == E_RASTER as isize {
            Some(WaitTimeoutError::TerminateRequest(Kind(__Unstable)))
        } else if c == E_DLT as isize {
            Some(WaitTimeoutError::Deleted(Kind(__Unstable)))
        } else {
            None
        }
    }
}

/// Error type for [`SemaphoreRef::poll`].
#[derive(Debug, Clone, Copy, PartialEq, Eq)]
pub enum PollError {
    BadContext(Kind),
    BadId(Kind),
    AccessDenied(Never),
    /// The object is not available without waiting.
    Timeout(Kind),
}

impl ErrorKind for PollError {
    open spec fn spec_from_error_code(code: int) -> Option<Self> {
        if code == E_CTX {
            Some(PollError::BadContext(kind()))
        } else if code == E_ID || code == E_NOEXS {
            Some(PollError::BadId(kind()))
        } else if code == E_TMOUT {
            Some(PollError::Timeout(kind()))
        } else {
            None
        }
    }

    fn from_error_code(code: ErrorCode) -> (r: Option<Self>) {
        let c = code.get();
        if c == E_CTX as isize {
            Some(PollError::BadContext(Kind(__Unstable)))
        } else if c == E_ID as isize || c == E_NOEXS as isize {
            Some(PollError::BadId(Kind(__Unstable)))
        } else if c == E_TMOUT as isize {
            Some(PollError::Timeout(Kind(__Unstable)))
        } else {
            None
        }
    }
}

/// Error type for [`SemaphoreRef::initialize`].
#[derive(Debug, Clone, Copy, PartialEq, Eq)]
pub enum InitializeError {
    BadContext(Kind),
    BadId(Kind),
    AccessDenied(Never),
}

impl ErrorKind for InitializeError {
    open spec fn spec_from_error_code(code: int) -> Option<Self> {
        if code == E_CTX {
            Some(InitializeError::BadContext(kind()))
        } else if code == E_ID || code == E_NOEXS {
            Some(InitializeError::BadId(kind()))
        } else {
            None
        }
    }

    fn from_error_code(code: ErrorCode) -> (r: Option<Self>) {
        let c = code.get();
        if c == E_CTX as isize {
            Some(InitializeError::BadContext(Kind(__Unstable)))
        } else if c == E_ID as isize || c == E_NOEXS as isize {
            Some(InitializeError::BadId(Kind(__Unstable)))
        } else {
            None
        }
    }
}

/// Error type for [`SemaphoreRef::info`].
#[derive(Debug, Clone, Copy, PartialEq, Eq)]
pub enum InfoError {
    BadContext(Kind),
    BadId(Kind),
    AccessDenied(Never),
}

impl ErrorKind for InfoError {
    open spec fn spec_from_error_code(code: int) -> Option<Self> {
        if code == E_CTX {
            Some(InfoError::BadContext(kind()))
        } else if code == E_ID || code == E_NOEXS {
            Some(InfoError::BadId(kind()))
        } else {
            None
        }
    }

    fn from_error_code(code: ErrorCode) -> (r: Option<Self>) {
        let c = code.get();
        if c == E_CTX as isize {
            Some(InfoError::BadContext(Kind(__Unstable)))
        } else if c == E_ID as isize || c == E_NOEXS as isize {
            Some(InfoError::BadId(Kind(__Unstable)))
        } else {
            None
        }
    }
}

/// Error type for [`Semaphore::build`].
#[derive(Debug, Clone, Copy, PartialEq, Eq)]
pub enum BuildError {
    BadContext(Kind),
    AccessDenied(Never),
    /// Ran out of semaphore IDs.
    OutOfMemory(Kind),
    /// Bad parameter.
    BadParam(Kind),
}

impl ErrorKind for BuildError {
    open spec fn spec_from_error_code(code: int) -> Option<Self> {
        if code == E_CTX {
            Some(BuildError::BadContext(kind()))
        } else if code == E_NOID {
            Some(BuildError::OutOfMemory(kind()))
        } else if code == E_PAR || code == E_RSATR {
            Some(BuildError::BadParam(kind()))
        } else {
            None
        }
    }

    fn from_error_code(code: ErrorCode) -> (r: Option<Self>) {
        let c = code.get();
        if c == E_CTX as isize {
            Some(BuildError::BadContext(Kind(__Unstable)))
        } else if c == E_NOID as isize {
            Some(BuildError::OutOfMemory(Kind(__Unstable)))
        } else if c == E_PAR as isize || c == E_RSATR as isize {
            Some(BuildError::BadParam(Kind(__Unstable)))
        } else {
            None
        }
    }
}

/// Error type for [`SemaphoreRef::delete`].
#[derive(Debug, Clone, Copy, PartialEq, Eq)]
pub enum DeleteError {
    BadContext(Kind),
    BadId(Kind),
    AccessDenied(Never),
    BadState(Kind),
}

impl ErrorKind for DeleteError {
    open spec fn spec_from_error_code(code: int) -> Option<Self> {
        if code == E_CTX {
            Some(DeleteError::BadContext(kind()))
        } else if code == E_ID || code == E_NOEXS {
            Some(DeleteError::BadId(kind()))
        } else if code == E_OBJ {
            Some(DeleteError::BadState(kind()))
        } else {
            None
        }
    }

    fn from_error_code(code: ErrorCode) -> (r: Option<Self>) {
        let c = code.get();
        if c == E_CTX as isize {
            Some(DeleteError::BadContext(Kind(__Unstable)))
        } else if c == E_ID as isize || c == E_NOEXS as isize {
            Some(DeleteError::BadId(Kind(__Unstable)))
        } else if c == E_OBJ as isize {
            Some(DeleteError::BadState(Kind(__Unstable)))
        } else {
            None
        }
    }
}

/// Semaphore count.
pub type Count = u32;

/// Semaphore information returned by [`SemaphoreRef::info`].
#[derive(Debug, Clone, Copy)]
pub struct Info {
    raw: T_RSEM,
}

impl View for Info {
    type V = T_RSEM;

    closed spec fn view(&self) -> T_RSEM {
        self.raw
    }
}

impl Info {
    /// Get the semaphore's count.
    pub fn count(&self) -> (r: Count)
        ensures
            r == self@.semcnt,
    {
        self.raw.semcnt
    }

    /// Get the first waiting task's ID.
    pub fn first_waiting_task_id(&self) -> (r: Option<NonNullID>)
        ensures
            r is Some <==> self@.wtskid != 0,
            r matches Some(id) ==> id.spec_get() == self@.wtskid,
    {
        NonNullID::new(self.raw.wtskid)
    }
}

/// A borrowed reference to a semaphore.
///
/// The lifetime `'a` bounds both the borrow of the kernel and the time for
/// which the semaphore is known to exist.
#[derive(Debug)]
pub struct SemaphoreRef<'a, K: Kernel> {
    id: NonNullID,
    kernel: &'a K,
}

impl<'a, K: Kernel> Clone for SemaphoreRef<'a, K> {
    fn clone(&self) -> (r: Self)
        ensures
            r == *self,
    {
        *self
    }
}

impl<'a, K: Kernel> Copy for SemaphoreRef<'a, K> {
}

impl<'a, K: Kernel> PartialEq for SemaphoreRef<'a, K> {
    fn eq(&self, other: &Self) -> (r: bool) {
        self.id.get() == other.id.get()
    }
}

impl<'a, K: Kernel> vstd::std_specs::cmp::PartialEqSpecImpl for SemaphoreRef<'a, K> {
    open spec fn obeys_eq_spec() -> bool {
        true
    }

    open spec fn eq_spec(&self, other: &Self) -> bool {
        self@ == other@
    }
}

impl<'a, K: Kernel> Eq for SemaphoreRef<'a, K> {
}

impl<'a, K: Kernel> View for SemaphoreRef<'a, K> {
    type V = ID;

    /// The raw object ID.
    closed spec fn view(&self) -> ID {
        self.id.spec_get()
    }
}

/// # Object ID conversion
impl<'a, K: Kernel> SemaphoreRef<'a, K> {
    /// Construct a `SemaphoreRef` from a raw object ID.
    ///
    /// The caller asserts that `id` denotes a semaphore that exists for at
    /// least `'a`.
    pub fn from_raw_nonnull(kernel: &'a K, id: NonNullID) -> (r: Self)
        ensures
            r@ == id.spec_get(),
    {
        SemaphoreRef { id, kernel }
    }

    /// Get the raw object ID.
    pub fn as_raw(self) -> (r: ID)
        ensures
            r == self@,
            r != 0,
    {
        self.id.get()
    }

    /// Get the raw object ID as [`NonNullID`].
    pub fn as_raw_nonnull(self) -> (r: NonNullID)
        ensures
            r.spec_get() == self@,
    {
        self.id
    }
}

/// # Management
impl<'a, K: Kernel> SemaphoreRef<'a, K> {
    /// `del_sem`: Delete the semaphore.
    ///
    /// The caller asserts that no owning handle or other reference is used
    /// for the semaphore afterwards.
    pub fn delete(self) -> (r: Result<(), Error<DeleteError>>)
        ensures
            unit_result(r),
    {
        check(self.kernel.del_sem(self.id.get()))
    }

    /// `ref_sem`: Get the semaphore's general information.
    pub fn info(self) -> (r: Result<Info, Error<InfoError>>)
        ensures
            r matches Err(e) ==> e@ < 0,
    {
        let mut raw = T_RSEM { wtskid: 0, semcnt: 0 };
        match check(self.kernel.ref_sem(self.id.get(), &mut raw)) {
            Ok(()) => Ok(Info { raw }),
            Err(e) => Err(e),
        }
    }
}

/// # Semaphore Operations
impl<'a, K: Kernel> SemaphoreRef<'a, K> {
    /// `sig_sem`: Increment the semaphore count by one.
    pub fn signal(self) -> (r: Result<(), Error<SignalError>>)
        ensures
            unit_result(r),
    {
        check(self.kernel.sig_sem(self.id.get()))
    }

    /// `wai_sem`: Decrement the semaphore count by one. Blocks the current
    /// task if the new value is negative.
    pub fn wait(self) -> (r: Result<(), Error<WaitError>>)
        ensures
            unit_result(r),
    {
        check(self.kernel.wai_sem(self.id.get()))
    }

    /// `twai_sem`: Decrement the semaphore count by one. Blocks the current
    /// task with timeout if the new value is negative.
    pub fn wait_timeout(self, tmo: Timeout) -> (r: Result<(), Error<WaitTimeoutError>>)
        ensures
            unit_result(r),
    {
        check(self.kernel.twai_sem(self.id.get(), tmo.as_raw()))
    }

    /// `pol_sem`: Decrement the semaphore count by one. Fails and returns
    /// immediately if the new value is negative.
    pub fn poll(self) -> (r: Result<(), Error<PollError>>)
        ensures
            unit_result(r),
    {
        check(self.kernel.pol_sem(self.id.get()))
    }

    /// `ini_sem`: Initialize the semaphore.
    pub fn initialize(self) -> (r: Result<(), Error<InitializeError>>)
        ensures
            unit_result(r),
    {
        check(self.kernel.ini_sem(self.id.get()))
    }
}

/// The builder type for [semaphores](Semaphore). Created by
/// [`Semaphore::build`].
pub struct Builder<'a, K: Kernel> {
    kernel: &'a K,
    initial_default: bool,
    raw: T_CSEM,
}

/// What a semaphore builder holds: the record so far, and whether the
/// initial count still follows the maximum count.
pub struct BuilderState {
    pub initial_default: bool,
    pub raw: T_CSEM,
}

impl BuilderState {
    /// The record that finishing submits.
    pub open spec fn record(self) -> T_CSEM {
        if self.initial_default {
            T_CSEM { isemcnt: self.raw.maxsem, ..self.raw }
        } else {
            self.raw
        }
    }
}

impl<'a, K: Kernel> View for Builder<'a, K> {
    type V = BuilderState;

    closed spec fn view(&self) -> BuilderState {
        BuilderState { initial_default: self.initial_default, raw: self.raw }
    }
}

impl<'a, K: Kernel> Semaphore<'a, K> {
    /// `acre_sem`: Create a builder for `Semaphore`: a binary semaphore with
    /// FIFO queue order until told otherwise.
    pub fn build(kernel: &'a K) -> (r: Builder<'a, K>)
        ensures
            r@.initial_default,
            r@.raw == (T_CSEM { sematr: TA_NULL, isemcnt: 0, maxsem: 1 }),
    {
        Builder { kernel, initial_default: true, raw: T_CSEM { sematr: TA_NULL, isemcnt: 0, maxsem: 1 } }
    }
}

impl<'a, K: Kernel> Builder<'a, K> {
    /// Specify the initial count. Defaults to `max_count` when unspecified.
    pub fn initial_count(self, value: Count) -> (r: Self)
        ensures
            !r@.initial_default,
            r@.raw == (T_CSEM { isemcnt: value, ..self@.raw }),
    {
        Builder { kernel: self.kernel, initial_default: false, raw: T_CSEM { isemcnt: value, ..self.raw } }
    }

    /// Specify the maximum count. Defaults to `1` when unspecified.
    pub fn max_count(self, value: Count) -> (r: Self)
        ensures
            r@.initial_default == self@.initial_default,
            r@.raw == (T_CSEM { maxsem: value, ..self@.raw }),
    {
        Builder { kernel: self.kernel, initial_default: self.initial_default, raw: T_CSEM { maxsem: value, ..self.raw } }
    }

    /// Specify the queue order. Defaults to `Fifo` when unspecified.
    pub fn queue_order(self, value: QueueOrder) -> (r: Self)
        ensures
            r@.initial_default == self@.initial_default,
            r@.raw == (T_CSEM { sematr: value.spec_atr(), ..self@.raw }),
    {
        Builder { kernel: self.kernel, initial_default: self.initial_default, raw: T_CSEM { sematr: value.as_raw_atr(), ..self.raw } }
    }

    /// The record that [`Self::finish`] submits.
    pub fn record(&self) -> (r: T_CSEM)
        ensures
            r == self@.record(),
    {
        if self.initial_default {
            T_CSEM { isemcnt: self.raw.maxsem, ..self.raw }
        } else {
            self.raw
        }
    }

    /// Create a semaphore using the specified parameters.
    pub fn finish(self) -> (r: Result<Semaphore<'a, K>, Error<BuildError>>)
        ensures
            r matches Err(e) ==> e@ < 0,
    {
        let raw = self.record();
        Semaphore::created(self.kernel, self.kernel.acre_sem(&raw))
    }
}

/// An owned semaphore.
///
/// [Deletes] the semaphore automatically when dropped. If the kernel refuses
/// the deletion, the destructor terminates the kernel (`ext_ker`): an object
/// that this handle owned alone cannot be undeletable unless an invariant is
/// broken.
///
/// [Deletes]: SemaphoreRef::delete
#[derive(Debug)]
pub struct Semaphore<'a, K: Kernel> {
    inner: SemaphoreRef<'a, K>,
}

impl<'a, K: Kernel> PartialEq for Semaphore<'a, K> {
    fn eq(&self, other: &Self) -> (r: bool) {
        self.inner.id.get() == other.inner.id.get()
    }
}

impl<'a, K: Kernel> vstd::std_specs::cmp::PartialEqSpecImpl for Semaphore<'a, K> {
    open spec fn obeys_eq_spec() -> bool {
        true
    }

    open spec fn eq_spec(&self, other: &Self) -> bool {
        self@ == other@
    }
}

impl<'a, K: Kernel> Eq for Semaphore<'a, K> {
}

impl<'a, K: Kernel> View for Semaphore<'a, K> {
    type V = ID;

    /// The raw object ID.
    closed spec fn view(&self) -> ID {
        self.inner@
    }
}

impl<'a, K: Kernel> Drop for Semaphore<'a, K> {
    /// Deletes the semaphore, or terminates the kernel if that fails.
    ///
    /// Verus requires a destructor not to unwind. This one calls only
    /// [`Semaphore::dispose`], verified code that does not panic, and
    /// the kernel's service calls, which [`Kernel`] requires not to unwind.
    #[verifier::external_body]
    fn drop(&mut self)
        opens_invariants none
        no_unwind
    {
        self.dispose();
    }
}

impl<'a, K: Kernel> Semaphore<'a, K> {
    /// The outcome of a creation call that returned `code`: a handle owning
    /// the new object when `code` is a positive ID, the kernel integrity
    /// error `E_SYS` for the null ID, and the error `code` otherwise.
    fn created(kernel: &'a K, code: ER_ID) -> (r: Result<Self, Error<BuildError>>)
        ensures
            code > 0 ==> (r matches Ok(h) && h@ == code),
            code == 0 ==> (r matches Err(e) && e@ == E_SYS),
            code < 0 ==> (r matches Err(e) && e@ == code),
    {
        match Error::<BuildError>::err_if_negative(code as isize) {
            Ok(id) => match NonNullID::new(id as ID) {
                Some(id) => Ok(Semaphore { inner: SemaphoreRef { id, kernel } }),
                None => Err(Error::from_code(ErrorCode::new_unchecked(E_SYS as isize))),
            },
            Err(e) => Err(e),
        }
    }

    /// Deletes the semaphore that this handle owns. If the kernel refuses, the
    /// handle's invariant is broken, and the kernel is terminated
    /// (`ext_ker`). Returns whether the deletion succeeded.
    fn dispose(&self) -> (deleted: bool) {
        match self.inner.delete() {
            Ok(()) => true,
            Err(_) => {
                let _ = self.inner.kernel.ext_ker();
                false
            },
        }
    }
}

impl<'a, K: Kernel> Semaphore<'a, K> {
    /// Construct a `Semaphore` from a raw object ID.
    ///
    /// The caller asserts that `id` denotes a semaphore that exists and that
    /// nothing else owns.
    pub fn from_raw_nonnull(kernel: &'a K, id: NonNullID) -> (r: Self)
        ensures
            r@ == id.spec_get(),
    {
        Semaphore { inner: SemaphoreRef::from_raw_nonnull(kernel, id) }
    }

    /// Consume and "leak" `self`, returning a reference `SemaphoreRef<'a>`.
    /// The semaphore is not deleted.
    pub fn leak(self) -> (r: SemaphoreRef<'a, K>)
        ensures
            r@ == self@,
    {
        let this = core::mem::ManuallyDrop::new(self);
        this.inner
    }

    /// Get the raw object ID.
    pub fn as_raw(&self) -> (r: ID)
        ensures
            r == self@,
            r != 0,
    {
        self.inner.as_raw()
    }

    /// Get the raw object ID as [`NonNullID`].
    pub fn as_raw_nonnull(&self) -> (r: NonNullID)
        ensures
            r.spec_get() == self@,
    {
        self.inner.as_raw_nonnull()
    }

    /// Borrow `Semaphore` as [`SemaphoreRef`].
    ///
    /// Use this to perform operations on semaphores because most of the
    /// methods are implemented on `SemaphoreRef` but not `Semaphore`.
    pub fn as_ref(&self) -> (r: SemaphoreRef<'_, K>)
        ensures
            r@ == self@,
    {
        SemaphoreRef { id: self.inner.id, kernel: self.inner.kernel }
    }
}

} // verus!
