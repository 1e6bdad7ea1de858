//! Dataqueues.
use vstd::prelude::*;

use crate::abi::{
    Kernel, NonNullID, ER_ID, E_CTX, E_DLT, E_ID, E_ILUSE, E_NOEXS, E_NOID, E_NOMEM, E_NOSPT, E_OBJ,
    E_PAR, E_RASTER, E_RLWAI, E_RSATR, E_SYS, E_TMOUT, ID, TA_NULL, T_CDTQ, T_RDTQ,
};
use crate::error::{
    check, kind, unit_result, Error, ErrorCode, ErrorKind, Kind, Never, __Unstable,
};
use crate::time::Timeout;
use crate::wait::QueueOrder;

verus! {

/// Error type for [`DataqueueRef::send`].
#[derive(Debug, Clone, Copy, PartialEq, Eq)]
pub enum SendError {
    BadContext(Kind),
    /// The task is a restricted task.
    NotSupported(Kind),
    BadId(Kind),
    AccessDenied(Never),
    Released(Kind),
    TerminateRequest(Kind),
    Deleted(Kind),
}

impl ErrorKind for SendError {
    open spec fn spec_from_error_code(code: int) -> Option<Self> {
        if code == E_CTX {
            Some(SendError::BadContext(kind()))
        } else if code == E_NOSPT {
            Some(SendError::NotSupported(kind()))
        } else if code == E_ID || code == E_NOEXS {
            Some(SendError::BadId(kind()))
        } else if code == E_RLWAI {
            Some(SendError::Released(kind()))
        } else if code == E_RASTER {
            Some(SendError::TerminateRequest(kind()))
        } else if code == E_DLT {
            Some(SendError::Deleted(kind()))
        } else {
            None
        }
    }

    fn from_error_code(code: ErrorCode) -> (r: Option<Self>) {
        let c = code.get();
        if c == E_CTX as isize {
            Some(SendError::BadContext(Kind(__Unstable)))
        } else if c == E_NOSPT as isize {
            Some(SendError::NotSupported(Kind(__Unstable)))
        } else if c == E_ID as isize || c == E_NOEXS as isize {
            Some(SendError::BadId(Kind(__Unstable)))
        } else if c == E_RLWAI as isize {
            Some(SendError::Released(Kind(__Unstable)))
        } else if c == E_RASTER as isize {
            Some(SendError::TerminateRequest(Kind(__Unstable)))
        } else if c == E_DLT as isize {
            Some(SendError::Deleted(Kind(__Unstable)))
        } else {
            None
        }
    }
}

/// Error type for [`DataqueueRef::send_timeout`].
#[derive(Debug, Clone, Copy, PartialEq, Eq)]
pub enum SendTimeoutError {
    BadContext(Kind),
    /// The task is a restricted task.
    NotSupported(Kind),
    BadId(Kind),
    AccessDenied(Never),
    Timeout(Kind),
    Released(Kind),
    TerminateRequest(Kind),
    Deleted(Kind),
}

impl ErrorKind for SendTimeoutError {
    open spec fn spec_from_error_code(code: int) -> Option<Self> {
        if code == E_CTX {
            Some(SendTimeoutError::BadContext(kind()))
        } else if code == E_NOSPT {
            Some(SendTimeoutError::NotSupported(kind()))
        } else if code == E_ID || code == E_NOEXS {
            Some(SendTimeoutError::BadId(kind()))
        } else if code == E_TMOUT {
            Some(SendTimeoutError::Timeout(kind()))
        } else if code == E_RLWAI {
            Some(SendTimeoutError::Released(kind()))
        } else if code == E_RASTER {
            Some(SendTimeoutError::TerminateRequest(kind()))
        } else if code == E_DLT {
            Some(SendTimeoutError::Deleted(kind()))
        } else {
            None
        }
    }

    fn from_error_code(code: ErrorCode) -> (r: Option<Self>) {
        let c = code.get();
        if c == E_CTX as isize {
            Some(SendTimeoutError::BadContext(Kind(__Unstable)))
        } else if c == E_NOSPT as isize {
            Some(SendTimeoutError::NotSupported(Kind(__Unstable)))
        } else if c == E_ID as isize || c == E_NOEXS as isize {
            Some(SendTimeoutError::BadId(Kind(__Unstable)))
        } else if c == E_TMOUT as isize {
            Some(SendTimeoutError::Timeout(Kind(__Unstable)))
        } else if c == E_RLWAI as isize {
            Some(SendTimeoutError::Released(Kind(__Unstable)))
        } else if c == E_RASTER as isize {
            Some(SendTimeoutError::TerminateRequest(Kind(__Unstable)))
        } else if c == E_DLT as isize {
            Some(SendTimeoutError::Deleted(Kind(__Unstable)))
        } else {
            None
        }
    }
}

/// Error type for [`DataqueueRef::try_send`].
#[derive(Debug, Clone, Copy, PartialEq, Eq)]
pub enum TrySendError {
    BadContext(Kind),
    BadId(Kind),
    AccessDenied(Never),
    Timeout(Kind),
}

impl ErrorKind for TrySendError {
    open spec fn spec_from_error_code(code: int) -> Option<Self> {
        if code == E_CTX {
            Some(TrySendError::BadContext(kind()))
        } else if code == E_ID || code == E_NOEXS {
            Some(TrySendError::BadId(kind()))
        } else if code == E_TMOUT {
            Some(TrySendError::Timeout(kind()))
        } else {
            None
        }
    }

    fn from_error_code(code: ErrorCode) -> (r: Option<Self>) {
        let c = code.get();
        if c == E_CTX as isize {
            Some(TrySendError::BadContext(Kind(__Unstable)))
        } else if c == E_ID as isize || c == E_NOEXS as isize {
            Some(TrySendError::BadId(Kind(__Unstable)))
        } else if c == E_TMOUT as isize {
            Some(TrySendError::Timeout(Kind(__Unstable)))
        } else {
            None
        }
    }
}

/// Error type for [`DataqueueRef::send_forced`].
#[derive(Debug, Clone, Copy, PartialEq, Eq)]
pub enum SendForcedError {
    BadContext(Kind),
    BadId(Kind),
    AccessDenied(Never),
    /// The queue length is zero.
    ZeroSized(Kind),
}

impl ErrorKind for SendForcedError {
    open spec fn spec_from_error_code(code: int) -> Option<Self> {
        if code == E_CTX {
            Some(SendForcedError::BadContext(kind()))
        } else if code == E_ID || code == E_NOEXS {
            Some(SendForcedError::BadId(kind()))
        } else if code == E_ILUSE {
            Some(SendForcedError::ZeroSized(kind()))
        } else {
            None
        }
    }

    fn from_error_code(code: ErrorCode) -> (r: Option<Self>) {
        let c = code.get();
        if c == E_CTX as isize {
            Some(SendForcedError::BadContext(Kind(__Unstable)))
        } else if c == E_ID as isize || c == E_NOEXS as isize {
            Some(SendForcedError::BadId(Kind(__Unstable)))
        } else if c == E_ILUSE as isize {
            Some(SendForcedError::ZeroSized(Kind(__Unstable)))
        } else {
            None
        }
    }
}

/// Error type for [`DataqueueRef::recv`].
#[derive(Debug, Clone, Copy, PartialEq, Eq)]
pub enum RecvError {
    BadContext(Kind),
    /// The task is a restricted task.
    NotSupported(Kind),
    BadId(Kind),
    AccessDenied(Never),
    Released(Kind),
    TerminateRequest(Kind),
    Deleted(Kind),
}

impl ErrorKind for RecvError {
    open spec fn spec_from_error_code(code: int) -> Option<Self> {
        if code == E_CTX {
            Some(RecvError::BadContext(kind()))
        } else if code == E_NOSPT {
            Some(RecvError::NotSupported(kind()))
        } else if code == E_ID || code == E_NOEXS {
            Some(RecvError::BadId(kind()))
        } else if code == E_RLWAI {
            Some(RecvError::Released(kind()))
        } else if code == E_RASTER {
            Some(RecvError::TerminateRequest(kind()))
        } else if code == E_DLT {
            Some(RecvError::Deleted(kind()))
        } else {
            None
        }
    }

    fn from_error_code(code: ErrorCode) -> (r: Option<Self>) {
        let c = code.get();
        if c == E_CTX as isize {
            Some(RecvError::BadContext(Kind(__Unstable)))
        } else if c == E_NOSPT as isize {
            Some(RecvError::NotSupported(Kind(__Unstable)))
        } else if c == E_ID as isize || c == E_NOEXS as isize {
            Some(RecvError::BadId(Kind(__Unstable)))
        } else if c == E_RLWAI as isize {
            Some(RecvError::Released(Kind(__Unstable)))
        } else if c == E_RASTER as isize {
            Some(RecvError::TerminateRequest(Kind(__Unstable)))
        } else if c == E_DLT as isize {
            Some(RecvError::Deleted(Kind(__Unstable)))
        } else {
            None
        }
    }
}

/// Error type for [`DataqueueRef::recv_timeout`].
#[derive(Debug, Clone, Copy, PartialEq, Eq)]
pub enum RecvTimeoutError {
    BadContext(Kind),
    /// The task is a restricted task.
    NotSupported(Kind),
    BadId(Kind),
    AccessDenied(Never),
    Timeout(Kind),
    Released(Kind),
    TerminateRequest(Kind),
    Deleted(Kind),
}

impl ErrorKind for RecvTimeoutError {
    open spec fn spec_from_error_code(code: int) -> Option<Self> {
        if code == E_CTX {
            Some(RecvTimeoutError::BadContext(kind()))
        } else if code == E_NOSPT {
            Some(RecvTimeoutError::NotSupported(kind()))
        } else if code == E_ID || code == E_NOEXS {
            Some(RecvTimeoutError::BadId(kind()))
        } else if code == E_TMOUT {
            Some(RecvTimeoutError::Timeout(kind()))
        } else if code == E_RLWAI {
            Some(RecvTimeoutError::Released(kind()))
        } else if code == E_RASTER {
            Some(RecvTimeoutError::TerminateRequest(kind()))
        } else if code == E_DLT {
            Some(RecvTimeoutError::Deleted(kind()))
        } else {
            None
        }
    }

    fn from_error_code(code: ErrorCode) -> (r: Option<Self>) {
        let c = code.get();
        if c == E_CTX as isize {
            Some(RecvTimeoutError::BadContext(Kind(__Unstable)))
        } else if c == E_NOSPT as isize {
            Some(RecvTimeoutError::NotSupported(Kind(__Unstable)))
        } else if c == E_ID as isize || c == E_NOEXS as isize {
            Some(RecvTimeoutError::BadId(Kind(__Unstable)))
        } else if c == E_TMOUT as isize {
            Some(RecvTimeoutError::Timeout(Kind(__Unstable)))
        } else if c == E_RLWAI as isize {
            Some(RecvTimeoutError::Released(Kind(__Unstable)))
        } else if c == E_RASTER as isize {
            Some(RecvTimeoutError::TerminateRequest(Kind(__Unstable)))
        } else if c == E_DLT as isize {
            Some(RecvTimeoutError::Deleted(Kind(__Unstable)))
        } else {
            None
        }
    }
}

/// Error type for [`DataqueueRef::try_recv`].
#[derive(Debug, Clone, Copy, PartialEq, Eq)]
pub enum TryRecvError {
    BadContext(Kind),
    BadId(Kind),
    AccessDenied(Never),
    Timeout(Kind),
}

impl ErrorKind for TryRecvError {
    open spec fn spec_from_error_code(code: int) -> Option<Self> {
        if code == E_CTX {
            Some(TryRecvError::BadContext(kind()))
        } else if code == E_ID || code == E_NOEXS {
            Some(TryRecvError::BadId(kind()))
        } else if code == E_TMOUT {
            Some(TryRecvError::Timeout(kind()))
        } else {
            None
        }
    }

    fn from_error_code(code: ErrorCode) -> (r: Option<Self>) {
        let c = code.get();
        if c == E_CTX as isize {
            Some(TryRecvError::BadContext(Kind(__Unstable)))
        } else if c == E_ID as isize || c == E_NOEXS as isize {
            Some(TryRecvError::BadId(Kind(__Unstable)))
        } else if c == E_TMOUT as isize {
            Some(TryRecvError::Timeout(Kind(__Unstable)))
        } else {
            None
        }
    }
}

/// Error type for [`DataqueueRef::initialize`].
#[derive(Debug, Clone, Copy, PartialEq, Eq)]
pub enum InitializeError {
    BadContext(Kind),
    BadId(Kind),
    AccessDenied(Never),
}

impl ErrorKind for InitializeError {
    open spec fn spec_from_error_code(code: int) -> Option<Self> {
        if code == E_CTX {
            Some(InitializeError::BadContext(kind()))
        } else if code == E_ID || code == E_NOEXS {
            Some(InitializeError::BadId(kind()))
        } else {
            None
        }
    }

    fn from_error_code(code: ErrorCode) -> (r: Option<Self>) {
        let c = code.get();
        if c == E_CTX as isize {
            Some(InitializeError::BadContext(Kind(__Unstable)))
        } else if c == E_ID as isize || c == E_NOEXS as isize {
            Some(InitializeError::BadId(Kind(__Unstable)))
        } else {
            None
        }
    }
}

/// Error type for [`DataqueueRef::info`].
#[derive(Debug, Clone, Copy, PartialEq, Eq)]
pub enum InfoError {
    BadContext(Kind),
    BadId(Kind),
    AccessDenied(Never),
}

impl ErrorKind for InfoError {
    open spec fn spec_from_error_code(code: int) -> Option<Self> {
        if code == E_CTX {
            Some(InfoError::BadContext(kind()))
        } else if code == E_ID || code == E_NOEXS {
            Some(InfoError::BadId(kind()))
        } else {
            None
        }
    }

    fn from_error_code(code: ErrorCode) -> (r: Option<Self>) {
        let c = code.get();
        if c == E_CTX as isize {
            Some(InfoError::BadContext(Kind(__Unstable)))
        } else if c == E_ID as isize || c == E_NOEXS as isize {
            Some(InfoError::BadId(Kind(__Unstable)))
        } else {
            None
        }
    }
}

/// Error type for [`Dataqueue::build`].
#[derive(Debug, Clone, Copy, PartialEq, Eq)]
pub enum BuildError {
    BadContext(Kind),
    AccessDenied(Never),
    /// Ran out of memory or dataqueue IDs, or the specified capacity
    /// does not fit in `uint_t`.
    OutOfMemory(Kind),
    /// Bad parameter.
    BadParam(Kind),
}

impl ErrorKind for BuildError {
    open spec fn spec_from_error_code(code: int) -> Option<Self> {
        if code == E_CTX {
            Some(BuildError::BadContext(kind()))
        } else if code == E_NOID || code == E_NOMEM {
            Some(BuildError::OutOfMemory(kind()))
        } else if code == E_PAR || code == E_RSATR {
            Some(BuildError::BadParam(kind()))
        } else {
            None
        }
    }

    fn from_error_code(code: ErrorCode) -> (r: Option<Self>) {
        let c = code.get();
        if c == E_CTX as isize {
            Some(BuildError::BadContext(Kind(__Unstable)))
        } else if c == E_NOID as isize || c == E_NOMEM as isize {
            Some(BuildError::OutOfMemory(Kind(__Unstable)))
        } else if c == E_PAR as isize || c == E_RSATR as isize {
            Some(BuildError::BadParam(Kind(__Unstable)))
        } else {
            None
        }
    }
}

/// Error type for [`DataqueueRef::delete`].
#[derive(Debug, Clone, Copy, PartialEq, Eq)]
pub enum DeleteError {
    BadContext(Kind),
    BadId(Kind),
    AccessDenied(Never),
    BadState(Kind),
}

impl ErrorKind for DeleteError {
    open spec fn spec_from_error_code(code: int) -> Option<Self> {
        if code == E_CTX {
            Some(DeleteError::BadContext(kind()))
        } else if code == E_ID || code == E_NOEXS {
            Some(DeleteError::BadId(kind()))
        } else if code == E_OBJ {
            Some(DeleteError::BadState(kind()))
        } else {
            None
        }
    }

    fn from_error_code(code: ErrorCode) -> (r: Option<Self>) {
        let c = code.get();
        if c == E_CTX as isize {
            Some(DeleteError::BadContext(Kind(__Unstable)))
        } else if c == E_ID as isize || c == E_NOEXS as isize {
            Some(DeleteError::BadId(Kind(__Unstable)))
        } else if c == E_OBJ as isize {
            Some(DeleteError::BadState(Kind(__Unstable)))
        } else {
            None
        }
    }
}
/// The unit of data that can be sent through a dataqueue.
///
/// The kernel's data element is signed; it is passed as an unsigned integer
/// of the same width, bit for bit.
pub type DataElement = usize;

/// Dataqueue information returned by [`DataqueueRef::info`].
#[derive(Debug, Clone, Copy)]
pub struct Info {
    raw: T_RDTQ,
}

impl View for Info {
    type V = T_RDTQ;

    closed spec fn view(&self) -> T_RDTQ {
        self.raw
    }
}

impl Info {
    /// Get the number of data items contained in the dataqueue.
    pub fn len(&self) -> (r: usize)
        ensures
            r == self@.sdtqcnt,
    {
        self.raw.sdtqcnt as usize
    }

    /// Get a flag indicating whether the dataqueue is empty.
    pub fn is_empty(&self) -> (r: bool)
        ensures
            r <==> self@.sdtqcnt == 0,
    {
        self.len() == 0
    }

    /// Get the first waiting sender's task ID.
    pub fn first_waiting_sending_task_id(&self) -> (r: Option<NonNullID>)
        ensures
            r is Some <==> self@.stskid != 0,
            r matches Some(id) ==> id.spec_get() == self@.stskid,
    {
        NonNullID::new(self.raw.stskid)
    }

    /// Get the first waiting receiver's task ID.
    pub fn first_waiting_receiving_task_id(&self) -> (r: Option<NonNullID>)
        ensures
            r is Some <==> self@.rtskid != 0,
            r matches Some(id) ==> id.spec_get() == self@.rtskid,
    {
        NonNullID::new(self.raw.rtskid)
    }
}

/// A borrowed reference to a dataqueue.
///
/// The lifetime `'a` bounds both the borrow of the kernel and the time for
/// which the dataqueue is known to exist.
#[derive(Debug)]
pub struct DataqueueRef<'a, K: Kernel> {
    id: NonNullID,
    kernel: &'a K,
}

impl<'a, K: Kernel> Clone for DataqueueRef<'a, K> {
    fn clone(&self) -> (r: Self)
        ensures
            r == *self,
    {
        *self
    }
}

impl<'a, K: Kernel> Copy for DataqueueRef<'a, K> {
}

impl<'a, K: Kernel> PartialEq for DataqueueRef<'a, K> {
    fn eq(&self, other: &Self) -> (r: bool) {
        self.id.get() == other.id.get()
    }
}

impl<'a, K: Kernel> vstd::std_specs::cmp::PartialEqSpecImpl for DataqueueRef<'a, K> {
    open spec fn obeys_eq_spec() -> bool {
        true
    }

    open spec fn eq_spec(&self, other: &Self) -> bool {
        self@ == other@
    }
}

impl<'a, K: Kernel> Eq for DataqueueRef<'a, K> {
}

impl<'a, K: Kernel> View for DataqueueRef<'a, K> {
    type V = ID;

    /// The raw object ID.
    closed spec fn view(&self) -> ID {
        self.id.spec_get()
    }
}

/// # Object ID conversion
impl<'a, K: Kernel> DataqueueRef<'a, K> {
    /// Construct a `DataqueueRef` from a raw object ID.
    ///
    /// The caller asserts that `id` denotes a dataqueue that exists for at
    /// least `'a`.
    pub fn from_raw_nonnull(kernel: &'a K, id: NonNullID) -> (r: Self)
        ensures
            r@ == id.spec_get(),
    {
        DataqueueRef { id, kernel }
    }

    /// Get the raw object ID.
    pub fn as_raw(self) -> (r: ID)
        ensures
            r == self@,
            r != 0,
    {
        self.id.get()
    }

    /// Get the raw object ID as [`NonNullID`].
    pub fn as_raw_nonnull(self) -> (r: NonNullID)
        ensures
            r.spec_get() == self@,
    {
        self.id
    }
}

/// # Management
impl<'a, K: Kernel> DataqueueRef<'a, K> {
    /// `del_dtq`: Delete the dataqueue.
    ///
    /// The caller asserts that no owning handle or other reference is used
    /// for the dataqueue afterwards.
    pub fn delete(self) -> (r: Result<(), Error<DeleteError>>)
        ensures
            unit_result(r),
    {
        check(self.kernel.del_dtq(self.id.get()))
    }

    /// `ref_dtq`: Get the dataqueue's general information.
    pub fn info(self) -> (r: Result<Info, Error<InfoError>>)
        ensures
            r matches Err(e) ==> e@ < 0,
    {
        let mut raw = T_RDTQ { stskid: 0, rtskid: 0, sdtqcnt: 0 };
        match check(self.kernel.ref_dtq(self.id.get(), &mut raw)) {
            Ok(()) => Ok(Info { raw }),
            Err(e) => Err(e),
        }
    }
}

/// The received word `raw` as a result: the data element when `code` reports
/// success.
fn received<T: ErrorKind>(code: crate::abi::ER, raw: isize) -> (r: Result<DataElement, Error<T>>)
    ensures
        code >= 0 <==> r is Ok,
        r matches Ok(x) ==> x == raw as usize,
        r matches Err(e) ==> e@ == code,
{
    match check(code) {
        Ok(()) => Ok(raw as usize),
        Err(e) => Err(e),
    }
}

/// # Dataqueue Operations
impl<'a, K: Kernel> DataqueueRef<'a, K> {
    /// `snd_dtq`: Send a data element to the dataqueue. Blocks the current task
    /// if the dataqueue is full.
    pub fn send(self, data_element: DataElement) -> (r: Result<(), Error<SendError>>)
        ensures
            unit_result(r),
    {
        check(self.kernel.snd_dtq(self.id.get(), data_element as isize))
    }

    /// `tsnd_dtq`: Send a data element to the dataqueue. Blocks the current
    /// task with timeout if the dataqueue is full.
    pub fn send_timeout(self, data_element: DataElement, tmo: Timeout) -> (r: Result<(), Error<SendTimeoutError>>)
        ensures
            unit_result(r),
    {
        check(self.kernel.tsnd_dtq(self.id.get(), data_element as isize, tmo.as_raw()))
    }

    /// `psnd_dtq`: Send a data element to the dataqueue. Fails and returns an
    /// error if the dataqueue is full.
    pub fn try_send(self, data_element: DataElement) -> (r: Result<(), Error<TrySendError>>)
        ensures
            unit_result(r),
    {
        check(self.kernel.psnd_dtq(self.id.get(), data_element as isize))
    }

    /// `fsnd_dtq`: Send a data element to the dataqueue. Removes ("pushes out")
    /// the oldest element if the dataqueue is full.
    pub fn send_forced(self, data_element: DataElement) -> (r: Result<(), Error<SendForcedError>>)
        ensures
            unit_result(r),
    {
        check(self.kernel.fsnd_dtq(self.id.get(), data_element as isize))
    }

    /// `rcv_dtq`: Receive a data element from the dataqueue. Blocks the current
    /// task if the dataqueue is empty.
    pub fn recv(self) -> (r: Result<DataElement, Error<RecvError>>)
        ensures
            r matches Err(e) ==> e@ < 0,
    {
        let mut out: isize = 0;
        let code = self.kernel.rcv_dtq(self.id.get(), &mut out);
        received(code, out)
    }

    /// `trcv_dtq`: Receive a data element from the dataqueue. Blocks the current
    /// task with timeout if the dataqueue is empty.
    pub fn recv_timeout(self, tmo: Timeout) -> (r: Result<DataElement, Error<RecvTimeoutError>>)
        ensures
            r matches Err(e) ==> e@ < 0,
    {
        let mut out: isize = 0;
        let code = self.kernel.trcv_dtq(self.id.get(), &mut out, tmo.as_raw());
        received(code, out)
    }

    /// `prcv_dtq`: Receive a data element from the dataqueue. Fails and returns
    /// an error if the dataqueue is empty.
    pub fn try_recv(self) -> (r: Result<DataElement, Error<TryRecvError>>)
        ensures
            r matches Err(e) ==> e@ < 0,
    {
        let mut out: isize = 0;
        let code = self.kernel.prcv_dtq(self.id.get(), &mut out);
        received(code, out)
    }

    /// `ini_dtq`: Initialize the dataqueue.
    pub fn initialize(self) -> (r: Result<(), Error<InitializeError>>)
        ensures
            unit_result(r),
    {
        check(self.kernel.ini_dtq(self.id.get()))
    }
}

/// The placeholder for a builder's capacity before it is specified.
#[allow(non_camel_case_types)]
pub struct __capacity_is_not_specified__;

/// The builder type for [dataqueues](Dataqueue). Created by
/// [`Dataqueue::build`].
///
/// `Capacity` is `()` once the capacity is specified; only then can the
/// builder finish.
pub struct Builder<'a, K: Kernel, Capacity> {
    kernel: &'a K,
    capacity: Capacity,
    capacity_overflow: bool,
    raw: T_CDTQ,
}

/// What a dataqueue builder holds: the record so far, and whether the
/// capacity did not fit the record's field.
pub struct BuilderState {
    pub capacity_overflow: bool,
    pub raw: T_CDTQ,
}

impl BuilderState {
    /// The state after the capacity is set to `value`.
    pub open spec fn with_capacity(self, value: usize) -> BuilderState {
        if value <= u32::MAX {
            BuilderState { capacity_overflow: false, raw: T_CDTQ { dtqcnt: value as u32, ..self.raw } }
        } else {
            BuilderState { capacity_overflow: true, raw: T_CDTQ { dtqcnt: 0, ..self.raw } }
        }
    }

    /// The state after the queue order is set to `value`.
    pub open spec fn with_queue_order(self, value: QueueOrder) -> BuilderState {
        BuilderState { raw: T_CDTQ { dtqatr: value.spec_atr(), ..self.raw }, ..self }
    }
}

/// The mandatory capacity and the optional queue order may be set in either
/// order: both orders leave the same state, hence the same record.
pub proof fn lemma_fields_commute(s: BuilderState, capacity: usize, order: QueueOrder)
    ensures
        s.with_capacity(capacity).with_queue_order(order) == s.with_queue_order(order).with_capacity(capacity),
{
}

impl<'a, K: Kernel, Capacity> View for Builder<'a, K, Capacity> {
    type V = BuilderState;

    closed spec fn view(&self) -> BuilderState {
        BuilderState { capacity_overflow: self.capacity_overflow, raw: self.raw }
    }
}

impl<'a, K: Kernel> Dataqueue<'a, K> {
    /// `acre_dtq`: Create a builder for `Dataqueue`.
    pub fn build(kernel: &'a K) -> (r: Builder<'a, K, __capacity_is_not_specified__>)
        ensures
            !r@.capacity_overflow,
            r@.raw == (T_CDTQ { dtqatr: TA_NULL, dtqcnt: 0, dtqmb: 0 }),
    {
        Builder {
            kernel,
            capacity: __capacity_is_not_specified__,
            capacity_overflow: false,
            raw: T_CDTQ { dtqatr: TA_NULL, dtqcnt: 0, dtqmb: 0 },
        }
    }
}

impl<'a, K: Kernel, Capacity> Builder<'a, K, Capacity> {
    /// (**Mandatory**) Specify the dataqueue's capacity, measured in
    /// number of data elements. A capacity that does not fit the kernel's
    /// field makes [`Builder::finish`] fail.
    pub fn capacity(self, value: usize) -> (r: Builder<'a, K, ()>)
        ensures
            r@ == self@.with_capacity(value),
    {
        let (dtqcnt, capacity_overflow) = if value <= u32::MAX as usize {
            (value as u32, false)
        } else {
            (0u32, true)
        };
        Builder {
            kernel: self.kernel,
            capacity: (),
            capacity_overflow,
            raw: T_CDTQ { dtqcnt, ..self.raw },
        }
    }

    /// Specify the queue order. Defaults to `Fifo` when unspecified.
    pub fn queue_order(self, value: QueueOrder) -> (r: Self)
        ensures
            r@ == self@.with_queue_order(value),
    {
        Builder {
            kernel: self.kernel,
            capacity: self.capacity,
            capacity_overflow: self.capacity_overflow,
            raw: T_CDTQ { dtqatr: value.as_raw_atr(), ..self.raw },
        }
    }
}

impl<'a, K: Kernel> Builder<'a, K, ()> {
    /// The record that [`Self::finish`] submits.
    pub fn record(&self) -> (r: T_CDTQ)
        ensures
            r == self@.raw,
    {
        self.raw
    }

    /// Create a dataqueue using the specified parameters.
    ///
    /// A capacity that did not fit fails with `OutOfMemory` without asking
    /// the kernel.
    pub fn finish(self) -> (r: Result<Dataqueue<'a, K>, Error<BuildError>>)
        ensures
            self@.capacity_overflow ==> (r matches Err(e) && e@ == E_NOMEM && e.is_classified()),
            r matches Err(e) ==> e@ < 0,
    {
        if self.capacity_overflow {
            return Err(Error::new_unchecked(ErrorCode::new_unchecked(E_NOMEM as isize)));
        }
        Dataqueue::created(self.kernel, self.kernel.acre_dtq(&self.raw))
    }
}

/// An owned dataqueue.
///
/// [Deletes] the dataqueue automatically when dropped. If the kernel refuses
/// the deletion, the destructor terminates the kernel (`ext_ker`): an object
/// that this handle owned alone cannot be undeletable unless an invariant is
/// broken.
///
/// [Deletes]: DataqueueRef::delete
#[derive(Debug)]
pub struct Dataqueue<'a, K: Kernel> {
    inner: DataqueueRef<'a, K>,
}

impl<'a, K: Kernel> PartialEq for Dataqueue<'a, K> {
    fn eq(&self, other: &Self) -> (r: bool) {
        self.inner.id.get() == other.inner.id.get()
    }
}

impl<'a, K: Kernel> vstd::std_specs::cmp::PartialEqSpecImpl for Dataqueue<'a, K> {
    open spec fn obeys_eq_spec() -> bool {
        true
    }

    open spec fn eq_spec(&self, other: &Self) -> bool {
        self@ == other@
    }
}

impl<'a, K: Kernel> Eq for Dataqueue<'a, K> {
}

impl<'a, K: Kernel> View for Dataqueue<'a, K> {
    type V = ID;

    /// The raw object ID.
    closed spec fn view(&self) -> ID {
        self.inner@
    }
}

impl<'a, K: Kernel> Drop for Dataqueue<'a, K> {
    /// Deletes the dataqueue, or terminates the kernel if that fails.
    ///
    /// Verus requires a destructor not to unwind. This one calls only
    /// [`Dataqueue::dispose`], verified code that does not panic, and
    /// the kernel's service calls, which [`Kernel`] requires not to unwind.
    #[verifier::external_body]
    fn drop(&mut self)
        opens_invariants none
        no_unwind
    {
        self.dispose();
    }
}

impl<'a, K: Kernel> Dataqueue<'a, K> {
    /// The outcome of a creation call that returned `code`: a handle owning
    /// the new object when `code` is a positive ID, the kernel integrity
    /// error `E_SYS` for the null ID, and the error `code` otherwise.
    fn created(kernel: &'a K, code: ER_ID) -> (r: Result<Self, Error<BuildError>>)
        ensures
            code > 0 ==> (r matches Ok(h) && h@ == code),
            code == 0 ==> (r matches Err(e) && e@ == E_SYS),
            code < 0 ==> (r matches Err(e) && e@ == code),
    {
        match Error::<BuildError>::err_if_negative(code as isize) {
            Ok(id) => match NonNullID::new(id as ID) {
                Some(id) => Ok(Dataqueue { inner: DataqueueRef { id, kernel } }),
                None => Err(Error::from_code(ErrorCode::new_unchecked(E_SYS as isize))),
            },
            Err(e) => Err(e),
        }
    }

    /// Deletes the dataqueue that this handle owns. If the kernel refuses, the
    /// handle's invariant is broken, and the kernel is terminated
    /// (`ext_ker`). Returns whether the deletion succeeded.
    fn dispose(&self) -> (deleted: bool) {
        match self.inner.delete() {
            Ok(()) => true,
            Err(_) => {
                let _ = self.inner.kernel.ext_ker();
                false
            },
        }
    }
}

impl<'a, K: Kernel> Dataqueue<'a, K> {
    /// Construct a `Dataqueue` from a raw object ID.
    ///
    /// The caller asserts that `id` denotes a dataqueue that exists and that
    /// nothing else owns.
    pub fn from_raw_nonnull(kernel: &'a K, id: NonNullID) -> (r: Self)
        ensures
            r@ == id.spec_get(),
    {
        Dataqueue { inner: DataqueueRef::from_raw_nonnull(kernel, id) }
    }

    /// Consume and "leak" `self`, returning a reference `DataqueueRef<'a>`.
    /// The dataqueue is not deleted.
    pub fn leak(self) -> (r: DataqueueRef<'a, K>)
        ensures
            r@ == self@,
    {
        let this = core::mem::ManuallyDrop::new(self);
        this.inner
    }

    /// Get the raw object ID.
    pub fn as_raw(&self) -> (r: ID)
        ensures
            r == self@,
            r != 0,
    {
        self.inner.as_raw()
    }

    /// Get the raw object ID as [`NonNullID`].
    pub fn as_raw_nonnull(&self) -> (r: NonNullID)
        ensures
            r.spec_get() == self@,
    {
        self.inner.as_raw_nonnull()
    }

    /// Borrow `Dataqueue` as [`DataqueueRef`].
    ///
    /// Use this to perform operations on dataqueues because most of the
    /// methods are implemented on `DataqueueRef` but not `Dataqueue`.
    pub fn as_ref(&self) -> (r: DataqueueRef<'_, K>)
        ensures
            r@ == self@,
    {
        DataqueueRef { id: self.inner.id, kernel: self.inner.kernel }
    }
}

} // verus!
