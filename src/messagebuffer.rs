//! Message buffers.
use vstd::prelude::*;

use crate::abi::{
    Kernel, NonNullID, ER_ID, E_CTX, E_DLT, E_ID, E_NOEXS, E_NOID, E_NOMEM, E_NOSPT, E_OBJ, E_PAR,
    E_RASTER, E_RLWAI, E_RSATR, E_SYS, E_TMOUT, ID, TA_NULL, T_CMBF, T_RMBF,
};
use crate::error::{
    check, kind, unit_result, Error, ErrorCode, ErrorKind, Kind, Never, __Unstable,
};
use crate::time::Timeout;
use crate::wait::QueueOrder;

verus! {

/// Error type for [`MessageBufferRef::send`].
#[derive(Debug, Clone, Copy, PartialEq, Eq)]
pub enum SendError {
    BadContext(Kind),
    /// The task is a restricted task.
    NotSupported(Kind),
    BadId(Kind),
    /// The message is too large (`E_PAR`, NGKI3364).
    BadParam(Kind),
    AccessDenied(Never),
    Released(Kind),
    TerminateRequest(Kind),
    Deleted(Kind),
}

impl ErrorKind for SendError {
    open spec fn spec_from_error_code(code: int) -> Option<Self> {
        if code == E_CTX {
            Some(SendError::BadContext(kind()))
        } else if code == E_NOSPT {
            Some(SendError::NotSupported(kind()))
        } else if code == E_ID || code == E_NOEXS {
            Some(SendError::BadId(kind()))
        } else if code == E_PAR {
            Some(SendError::BadParam(kind()))
        } else if code == E_RLWAI {
            Some(SendError::Released(kind()))
        } else if code == E_RASTER {
            Some(SendError::TerminateRequest(kind()))
        } else if code == E_DLT {
            Some(SendError::Deleted(kind()))
        } else {
            None
        }
    }

    fn from_error_code(code: ErrorCode) -> (r: Option<Self>) {
        let c = code.get();
        if c == E_CTX as isize {
            Some(SendError::BadContext(Kind(__Unstable)))
        } else if c == E_NOSPT as isize {
            Some(SendError::NotSupported(Kind(__Unstable)))
        } else if c == E_ID as isize || c == E_NOEXS as isize {
            Some(SendError::BadId(Kind(__Unstable)))
        } else if c == E_PAR as isize {
            Some(SendError::BadParam(Kind(__Unstable)))
        } else if c == E_RLWAI as isize {
            Some(SendError::Released(Kind(__Unstable)))
        } else if c == E_RASTER as isize {
            Some(SendError::TerminateRequest(Kind(__Unstable)))
        } else if c == E_DLT as isize {
            Some(SendError::Deleted(Kind(__Unstable)))
        } else {
            None
        }
    }
}

/// Error type for [`MessageBufferRef::send_timeout`].
#[derive(Debug, Clone, Copy, PartialEq, Eq)]
pub enum SendTimeoutError {
    BadContext(Kind),
    /// The task is a restricted task.
    NotSupported(Kind),
    BadId(Kind),
    /// The message is too large (`E_PAR`, NGKI3364).
    BadParam(Kind),
    AccessDenied(Never),
    Timeout(Kind),
    Released(Kind),
    TerminateRequest(Kind),
    Deleted(Kind),
}

impl ErrorKind for SendTimeoutError {
    open spec fn spec_from_error_code(code: int) -> Option<Self> {
        if code == E_CTX {
            Some(SendTimeoutError::BadContext(kind()))
        } else if code == E_NOSPT {
            Some(SendTimeoutError::NotSupported(kind()))
        } else if code == E_ID || code == E_NOEXS {
            Some(SendTimeoutError::BadId(kind()))
        } else if code == E_PAR {
            Some(SendTimeoutError::BadParam(kind()))
        } else if code == E_TMOUT {
            Some(SendTimeoutError::Timeout(kind()))
        } else if code == E_RLWAI {
            Some(SendTimeoutError::Released(kind()))
        } else if code == E_RASTER {
            Some(SendTimeoutError::TerminateRequest(kind()))
        } else if code == E_DLT {
            Some(SendTimeoutError::Deleted(kind()))
        } else {
            None
        }
    }

    fn from_error_code(code: ErrorCode) -> (r: Option<Self>) {
        let c = code.get();
        if c == E_CTX as isize {
            Some(SendTimeoutError::BadContext(Kind(__Unstable)))
        } else if c == E_NOSPT as isize {
            Some(SendTimeoutError::NotSupported(Kind(__Unstable)))
        } else if c == E_ID as isize || c == E_NOEXS as isize {
            Some(SendTimeoutError::BadId(Kind(__Unstable)))
        } else if c == E_PAR as isize {
            Some(SendTimeoutError::BadParam(Kind(__Unstable)))
        } else if c == E_TMOUT as isize {
            Some(SendTimeoutError::Timeout(Kind(__Unstable)))
        } else if c == E_RLWAI as isize {
            Some(SendTimeoutError::Released(Kind(__Unstable)))
        } else if c == E_RASTER as isize {
            Some(SendTimeoutError::TerminateRequest(Kind(__Unstable)))
        } else if c == E_DLT as isize {
            Some(SendTimeoutError::Deleted(Kind(__Unstable)))
        } else {
            None
        }
    }
}

/// Error type for [`MessageBufferRef::try_send`].
#[derive(Debug, Clone, Copy, PartialEq, Eq)]
pub enum TrySendError {
    BadContext(Kind),
    BadId(Kind),
    /// The message is too large (`E_PAR`, NGKI3364).
    BadParam(Kind),
    AccessDenied(Never),
    Timeout(Kind),
}

impl ErrorKind for TrySendError {
    open spec fn spec_from_error_code(code: int) -> Option<Self> {
        if code == E_CTX {
            Some(TrySendError::BadContext(kind()))
        } else if code == E_ID || code == E_NOEXS {
            Some(TrySendError::BadId(kind()))
        } else if code == E_PAR {
            Some(TrySendError::BadParam(kind()))
        } else if code == E_TMOUT {
            Some(TrySendError::Timeout(kind()))
        } else {
            None
        }
    }

    fn from_error_code(code: ErrorCode) -> (r: Option<Self>) {
        let c = code.get();
        if c == E_CTX as isize {
            Some(TrySendError::BadContext(Kind(__Unstable)))
        } else if c == E_ID as isize || c == E_NOEXS as isize {
            Some(TrySendError::BadId(Kind(__Unstable)))
        } else if c == E_PAR as isize {
            Some(TrySendError::BadParam(Kind(__Unstable)))
        } else if c == E_TMOUT as isize {
            Some(TrySendError::Timeout(Kind(__Unstable)))
        } else {
            None
        }
    }
}

/// Error type for [`MessageBufferRef::recv`].
#[derive(Debug, Clone, Copy, PartialEq, Eq)]
pub enum RecvError {
    BadContext(Kind),
    /// The task is a restricted task.
    NotSupported(Kind),
    BadId(Kind),
    AccessDenied(Never),
    Released(Kind),
    TerminateRequest(Kind),
    Deleted(Kind),
}

impl ErrorKind for RecvError {
    open spec fn spec_from_error_code(code: int) -> Option<Self> {
        if code == E_CTX {
            Some(RecvError::BadContext(kind()))
        } else if code == E_NOSPT {
            Some(RecvError::NotSupported(kind()))
        } else if code == E_ID || code == E_NOEXS {
            Some(RecvError::BadId(kind()))
        } else if code == E_RLWAI {
            Some(RecvError::Released(kind()))
        } else if code == E_RASTER {
            Some(RecvError::TerminateRequest(kind()))
        } else if code == E_DLT {
            Some(RecvError::Deleted(kind()))
        } else {
            None
        }
    }

    fn from_error_code(code: ErrorCode) -> (r: Option<Self>) {
        let c = code.get();
        if c == E_CTX as isize {
            Some(RecvError::BadContext(Kind(__Unstable)))
        } else if c == E_NOSPT as isize {
            Some(RecvError::NotSupported(Kind(__Unstable)))
        } else if c == E_ID as isize || c == E_NOEXS as isize {
            Some(RecvError::BadId(Kind(__Unstable)))
        } else if c == E_RLWAI as isize {
            Some(RecvError::Released(Kind(__Unstable)))
        } else if c == E_RASTER as isize {
            Some(RecvError::TerminateRequest(Kind(__Unstable)))
        } else if c == E_DLT as isize {
            Some(RecvError::Deleted(Kind(__Unstable)))
        } else {
            None
        }
    }
}

/// Error type for [`MessageBufferRef::recv_timeout`].
#[derive(Debug, Clone, Copy, PartialEq, Eq)]
pub enum RecvTimeoutError {
    BadContext(Kind),
    /// The task is a restricted task.
    NotSupported(Kind),
    BadId(Kind),
    AccessDenied(Never),
    Timeout(Kind),
    Released(Kind),
    TerminateRequest(Kind),
    Deleted(Kind),
}

impl ErrorKind for RecvTimeoutError {
    open spec fn spec_from_error_code(code: int) -> Option<Self> {
        if code == E_CTX {
            Some(RecvTimeoutError::BadContext(kind()))
        } else if code == E_NOSPT {
            Some(RecvTimeoutError::NotSupported(kind()))
        } else if code == E_ID || code == E_NOEXS {
            Some(RecvTimeoutError::BadId(kind()))
        } else if code == E_TMOUT {
            Some(RecvTimeoutError::Timeout(kind()))
        } else if code == E_RLWAI {
            Some(RecvTimeoutError::Released(kind()))
        } else if code == E_RASTER {
            Some(RecvTimeoutError::TerminateRequest(kind()))
        } else if code == E_DLT {
            Some(RecvTimeoutError::Deleted(kind()))
        } else {
            None
        }
    }

    fn from_error_code(code: ErrorCode) -> (r: Option<Self>) {
        let c = code.get();
        if c == E_CTX as isize {
            Some(RecvTimeoutError::BadContext(Kind(__Unstable)))
        } else if c == E_NOSPT as isize {
            Some(RecvTimeoutError::NotSupported(Kind(__Unstable)))
        } else if c == E_ID as isize || c == E_NOEXS as isize {
            Some(RecvTimeoutError::BadId(Kind(__Unstable)))
        } else if c == E_TMOUT as isize {
            Some(RecvTimeoutError::Timeout(Kind(__Unstable)))
        } else if c == E_RLWAI as isize {
            Some(RecvTimeoutError::Released(Kind(__Unstable)))
        } else if c == E_RASTER as isize {
            Some(RecvTimeoutError::TerminateRequest(Kind(__Unstable)))
        } else if c == E_DLT as isize {
            Some(RecvTimeoutError::Deleted(Kind(__Unstable)))
        } else {
            None
        }
    }
}

/// Error type for [`MessageBufferRef::try_recv`].
#[derive(Debug, Clone, Copy, PartialEq, Eq)]
pub enum TryRecvError {
    BadContext(Kind),
    BadId(Kind),
    AccessDenied(Never),
    Timeout(Kind),
}

impl ErrorKind for TryRecvError {
    open spec fn spec_from_error_code(code: int) -> Option<Self> {
        if code == E_CTX {
            Some(TryRecvError::BadContext(kind()))
        } else if code == E_ID || code == E_NOEXS {
            Some(TryRecvError::BadId(kind()))
        } else if code == E_TMOUT {
            Some(TryRecvError::Timeout(kind()))
        } else {
            None
        }
    }

    fn from_error_code(code: ErrorCode) -> (r: Option<Self>) {
        let c = code.get();
        if c == E_CTX as isize {
            Some(TryRecvError::BadContext(Kind(__Unstable)))
        } else if c == E_ID as isize || c == E_NOEXS as isize {
            Some(TryRecvError::BadId(Kind(__Unstable)))
        } else if c == E_TMOUT as isize {
            Some(TryRecvError::Timeout(Kind(__Unstable)))
        } else {
            None
        }
    }
}

/// Error type for [`MessageBufferRef::initialize`].
#[derive(Debug, Clone, Copy, PartialEq, Eq)]
pub enum InitializeError {
    BadContext(Kind),
    BadId(Kind),
    AccessDenied(Never),
}

impl ErrorKind for InitializeError {
    open spec fn spec_from_error_code(code: int) -> Option<Self> {
        if code == E_CTX {
            Some(InitializeError::BadContext(kind()))
        } else if code == E_ID || code == E_NOEXS {
            Some(InitializeError::BadId(kind()))
        } else {
            None
        }
    }

    fn from_error_code(code: ErrorCode) -> (r: Option<Self>) {
        let c = code.get();
        if c == E_CTX as isize {
            Some(InitializeError::BadContext(Kind(__Unstable)))
        } else if c == E_ID as isize || c == E_NOEXS as isize {
            Some(InitializeError::BadId(Kind(__Unstable)))
        } else {
            None
        }
    }
}

/// Error type for [`MessageBufferRef::info`].
#[derive(Debug, Clone, Copy, PartialEq, Eq)]
pub enum InfoError {
    BadContext(Kind),
    BadId(Kind),
    AccessDenied(Never),
}

impl ErrorKind for InfoError {
    open spec fn spec_from_error_code(code: int) -> Option<Self> {
        if code == E_CTX {
            Some(InfoError::BadContext(kind()))
        } else if code == E_ID || code == E_NOEXS {
            Some(InfoError::BadId(kind()))
        } else {
            None
        }
    }

    fn from_error_code(code: ErrorCode) -> (r: Option<Self>) {
        let c = code.get();
        if c == E_CTX as isize {
            Some(InfoError::BadContext(Kind(__Unstable)))
        } else if c == E_ID as isize || c == E_NOEXS as isize {
            Some(InfoError::BadId(Kind(__Unstable)))
        } else {
            None
        }
    }
}

/// Error type for [`MessageBuffer::build`].
#[derive(Debug, Clone, Copy, PartialEq, Eq)]
pub enum BuildError {
    BadContext(Kind),
    AccessDenied(Never),
    NotSupported(Never),
    /// Ran out of memory or message buffer IDs, or the specified block size
    /// or capacity does not fit in `uint_t`.
    OutOfMemory(Kind),
    /// Bad parameter.
    BadParam(Kind),
}

impl ErrorKind for BuildError {
    open spec fn spec_from_error_code(code: int) -> Option<Self> {
        if code == E_CTX {
            Some(BuildError::BadContext(kind()))
        } else if code == E_NOID || code == E_NOMEM {
            Some(BuildError::OutOfMemory(kind()))
        } else if code == E_PAR || code == E_RSATR {
            Some(BuildError::BadParam(kind()))
        } else {
            None
        }
    }

    fn from_error_code(code: ErrorCode) -> (r: Option<Self>) {
        let c = code.get();
        if c == E_CTX as isize {
            Some(BuildError::BadContext(Kind(__Unstable)))
        } else if c == E_NOID as isize || c == E_NOMEM as isize {
            Some(BuildError::OutOfMemory(Kind(__Unstable)))
        } else if c == E_PAR as isize || c == E_RSATR as isize {
            Some(BuildError::BadParam(Kind(__Unstable)))
        } else {
            None
        }
    }
}

/// Error type for [`MessageBufferRef::delete`].
#[derive(Debug, Clone, Copy, PartialEq, Eq)]
pub enum DeleteError {
    BadContext(Kind),
    BadId(Kind),
    AccessDenied(Never),
    BadState(Kind),
}

impl ErrorKind for DeleteError {
    open spec fn spec_from_error_code(code: int) -> Option<Self> {
        if code == E_CTX {
            Some(DeleteError::BadContext(kind()))
        } else if code == E_ID || code == E_NOEXS {
            Some(DeleteError::BadId(kind()))
        } else if code == E_OBJ {
            Some(DeleteError::BadState(kind()))
        } else {
            None
        }
    }

    fn from_error_code(code: ErrorCode) -> (r: Option<Self>) {
        let c = code.get();
        if c == E_CTX as isize {
            Some(DeleteError::BadContext(Kind(__Unstable)))
        } else if c == E_ID as isize || c == E_NOEXS as isize {
            Some(DeleteError::BadId(Kind(__Unstable)))
        } else if c == E_OBJ as isize {
            Some(DeleteError::BadState(Kind(__Unstable)))
        } else {
            None
        }
    }
}
/// Message buffer information returned by [`MessageBufferRef::info`].
#[derive(Debug, Clone, Copy)]
pub struct Info {
    raw: T_RMBF,
}

impl View for Info {
    type V = T_RMBF;

    closed spec fn view(&self) -> T_RMBF {
        self.raw
    }
}

impl Info {
    /// Get the free space in bytes.
    pub fn free_byte_count(&self) -> (r: usize)
        ensures
            r == self@.fmbfsz,
    {
        self.raw.fmbfsz
    }

    /// Get the number of messages contained in the message buffer.
    pub fn len(&self) -> (r: usize)
        ensures
            r == self@.smbfcnt,
    {
        self.raw.smbfcnt as usize
    }

    /// Get a flag indicating whether the message buffer is empty.
    pub fn is_empty(&self) -> (r: bool)
        ensures
            r <==> self@.smbfcnt == 0,
    {
        self.len() == 0
    }

    /// Get the first waiting sender's task ID.
    pub fn first_waiting_sending_task_id(&self) -> (r: Option<NonNullID>)
        ensures
            r is Some <==> self@.stskid != 0,
            r matches Some(id) ==> id.spec_get() == self@.stskid,
    {
        NonNullID::new(self.raw.stskid)
    }

    /// Get the first waiting receiver's task ID.
    pub fn first_waiting_receiving_task_id(&self) -> (r: Option<NonNullID>)
        ensures
            r is Some <==> self@.rtskid != 0,
            r matches Some(id) ==> id.spec_get() == self@.rtskid,
    {
        NonNullID::new(self.raw.rtskid)
    }
}

/// A borrowed reference to a message buffer.
///
/// The lifetime `'a` bounds both the borrow of the kernel and the time for
/// which the message buffer is known to exist.
#[derive(Debug)]
pub struct MessageBufferRef<'a, K: Kernel> {
    id: NonNullID,
    kernel: &'a K,
}

impl<'a, K: Kernel> Clone for MessageBufferRef<'a, K> {
    fn clone(&self) -> (r: Self)
        ensures
            r == *self,
    {
        *self
    }
}

impl<'a, K: Kernel> Copy for MessageBufferRef<'a, K> {
}

impl<'a, K: Kernel> PartialEq for MessageBufferRef<'a, K> {
    fn eq(&self, other: &Self) -> (r: bool) {
        self.id.get() == other.id.get()
    }
}

impl<'a, K: Kernel> vstd::std_specs::cmp::PartialEqSpecImpl for MessageBufferRef<'a, K> {
    open spec fn obeys_eq_spec() -> bool {
        true
    }

    open spec fn eq_spec(&self, other: &Self) -> bool {
        self@ == other@
    }
}

impl<'a, K: Kernel> Eq for MessageBufferRef<'a, K> {
}

impl<'a, K: Kernel> View for MessageBufferRef<'a, K> {
    type V = ID;

    /// The raw object ID.
    closed spec fn view(&self) -> ID {
        self.id.spec_get()
    }
}

/// # Object ID conversion
impl<'a, K: Kernel> MessageBufferRef<'a, K> {
    /// Construct a `MessageBufferRef` from a raw object ID.
    ///
    /// The caller asserts that `id` denotes a message buffer that exists for at
    /// least `'a`.
    pub fn from_raw_nonnull(kernel: &'a K, id: NonNullID) -> (r: Self)
        ensures
            r@ == id.spec_get(),
    {
        MessageBufferRef { id, kernel }
    }

    /// Get the raw object ID.
    pub fn as_raw(self) -> (r: ID)
        ensures
            r == self@,
            r != 0,
    {
        self.id.get()
    }

    /// Get the raw object ID as [`NonNullID`].
    pub fn as_raw_nonnull(self) -> (r: NonNullID)
        ensures
            r.spec_get() == self@,
    {
        self.id
    }
}

/// # Management
impl<'a, K: Kernel> MessageBufferRef<'a, K> {
    /// `del_mbf`: Delete the message buffer.
    ///
    /// The caller asserts that no owning handle or other reference is used
    /// for the message buffer afterwards.
    pub fn delete(self) -> (r: Result<(), Error<DeleteError>>)
        ensures
            unit_result(r),
    {
        check(self.kernel.del_mbf(self.id.get()))
    }

    /// `ref_mbf`: Get the message buffer's general information.
    pub fn info(self) -> (r: Result<Info, Error<InfoError>>)
        ensures
            r matches Err(e) ==> e@ < 0,
    {
        let mut raw = T_RMBF { stskid: 0, rtskid: 0, smbfcnt: 0, fmbfsz: 0 };
        match check(self.kernel.ref_mbf(self.id.get(), &mut raw)) {
            Ok(()) => Ok(Info { raw }),
            Err(e) => Err(e),
        }
    }
}

/// The size reported by a receiving call as a result.
fn received_size<T: ErrorKind>(code: crate::abi::ER_UINT) -> (r: Result<usize, Error<T>>)
    ensures
        code >= 0 <==> r is Ok,
        r matches Ok(n) ==> n == code,
        r matches Err(e) ==> e@ == code,
{
    match Error::<T>::err_if_negative(code as isize) {
        Ok(n) => Ok(n as usize),
        Err(e) => Err(e),
    }
}

/// The parameter error that a message too long for the kernel's size field
/// gets: such a message exceeds every message buffer's maximum size.
fn oversized<T: ErrorKind>() -> (r: Error<T>)
    requires
        T::spec_from_error_code(E_PAR as int) is Some,
    ensures
        r@ == E_PAR,
        r.is_classified(),
{
    Error::new_unchecked(ErrorCode::new_unchecked(E_PAR as isize))
}

/// # Message Buffer Operations
impl<'a, K: Kernel> MessageBufferRef<'a, K> {
    /// `snd_mbf`: Send a message to the message buffer. Blocks the current
    /// task if the message buffer is full.
    ///
    /// A message whose length does not fit the kernel's size field fails
    /// with `BadParam` without asking the kernel.
    pub fn send(self, message: &[u8]) -> (r: Result<(), Error<SendError>>)
        ensures
            message@.len() > u32::MAX ==> (r matches Err(e) && e@ == E_PAR && e.is_classified()),
            unit_result(r),
    {
        if message.len() > u32::MAX as usize {
            return Err(oversized());
        }
        check(self.kernel.snd_mbf(self.id.get(), message, message.len() as u32))
    }

    /// `tsnd_mbf`: Send a message to the message buffer. Blocks the current
    /// task with timeout if the message buffer is full.
    ///
    /// A message whose length does not fit the kernel's size field fails
    /// with `BadParam` without asking the kernel.
    pub fn send_timeout(self, message: &[u8], tmo: Timeout) -> (r: Result<(), Error<SendTimeoutError>>)
        ensures
            message@.len() > u32::MAX ==> (r matches Err(e) && e@ == E_PAR && e.is_classified()),
            unit_result(r),
    {
        if message.len() > u32::MAX as usize {
            return Err(oversized());
        }
        check(self.kernel.tsnd_mbf(self.id.get(), message, message.len() as u32, tmo.as_raw()))
    }

    /// `psnd_mbf`: Send a message to the message buffer. Fails and returns an
    /// error if the message buffer is full.
    ///
    /// A message whose length does not fit the kernel's size field fails
    /// with `BadParam` without asking the kernel.
    pub fn try_send(self, message: &[u8]) -> (r: Result<(), Error<TrySendError>>)
        ensures
            message@.len() > u32::MAX ==> (r matches Err(e) && e@ == E_PAR && e.is_classified()),
            unit_result(r),
    {
        if message.len() > u32::MAX as usize {
            return Err(oversized());
        }
        check(self.kernel.psnd_mbf(self.id.get(), message, message.len() as u32))
    }

    /// `rcv_mbf`: Receive a message from the message buffer into `out`,
    /// returning its size. Blocks the current task if the message buffer is
    /// empty.
    ///
    /// `out` must be at least as long as the buffer's maximum message size.
    pub fn recv(self, out: &mut [u8]) -> (r: Result<usize, Error<RecvError>>)
        ensures
            r matches Err(e) ==> e@ < 0,
    {
        received_size(self.kernel.rcv_mbf(self.id.get(), out))
    }

    /// `trcv_mbf`: Receive a message from the message buffer into `out`,
    /// returning its size. Blocks the current task with timeout if the
    /// message buffer is empty.
    ///
    /// `out` must be at least as long as the buffer's maximum message size.
    pub fn recv_timeout(self, out: &mut [u8], tmo: Timeout) -> (r: Result<usize, Error<RecvTimeoutError>>)
        ensures
            r matches Err(e) ==> e@ < 0,
    {
        received_size(self.kernel.trcv_mbf(self.id.get(), out, tmo.as_raw()))
    }

    /// `prcv_mbf`: Receive a message from the message buffer into `out`,
    /// returning its size. Fails and returns an error if the message buffer
    /// is empty.
    ///
    /// `out` must be at least as long as the buffer's maximum message size.
    pub fn try_recv(self, out: &mut [u8]) -> (r: Result<usize, Error<TryRecvError>>)
        ensures
            r matches Err(e) ==> e@ < 0,
    {
        received_size(self.kernel.prcv_mbf(self.id.get(), out))
    }

    /// `ini_mbf`: Initialize the message buffer.
    pub fn initialize(self) -> (r: Result<(), Error<InitializeError>>)
        ensures
            unit_result(r),
    {
        check(self.kernel.ini_mbf(self.id.get()))
    }
}

/// The placeholder for a builder's capacity before it is specified.
#[allow(non_camel_case_types)]
pub struct __capacity_is_not_specified__;

/// The placeholder for a builder's maximum message size before it is
/// specified.
#[allow(non_camel_case_types)]
pub struct __max_message_size_is_not_specified__;

/// The builder type for [message buffers](MessageBuffer). Created by
/// [`MessageBuffer::build`].
///
/// `Capacity` and `MaxMessageSize` are `()` once the respective field is
/// specified; only then can the builder finish.
pub struct Builder<'a, K: Kernel, Capacity, MaxMessageSize> {
    kernel: &'a K,
    capacity: Capacity,
    max_message_size: MaxMessageSize,
    maxmsz_overflow: bool,
    raw: T_CMBF,
}

/// What a message buffer builder holds: the record so far, and whether the
/// maximum message size did not fit the record's field.
pub struct BuilderState {
    pub maxmsz_overflow: bool,
    pub raw: T_CMBF,
}

impl BuilderState {
    /// The state after the capacity is set to `value`.
    pub open spec fn with_capacity(self, value: usize) -> BuilderState {
        BuilderState { raw: T_CMBF { mbfsz: value, ..self.raw }, ..self }
    }

    /// The state after the maximum message size is set to `value`.
    pub open spec fn with_max_message_size(self, value: usize) -> BuilderState {
        if value <= u32::MAX {
            BuilderState { maxmsz_overflow: false, raw: T_CMBF { maxmsz: value as u32, ..self.raw } }
        } else {
            BuilderState { maxmsz_overflow: true, raw: T_CMBF { maxmsz: 0, ..self.raw } }
        }
    }

    /// The state after the queue order is set to `value`.
    pub open spec fn with_queue_order(self, value: QueueOrder) -> BuilderState {
        BuilderState { raw: T_CMBF { mbfatr: value.spec_atr(), ..self.raw }, ..self }
    }
}

/// The fields of a message buffer builder may be set in any order: each
/// pair of setters commutes, so every order leaves the same state, hence the
/// same record.
pub proof fn lemma_fields_commute(s: BuilderState, capacity: usize, max_size: usize, order: QueueOrder)
    ensures
        s.with_capacity(capacity).with_max_message_size(max_size) == s.with_max_message_size(max_size).with_capacity(capacity),
        s.with_capacity(capacity).with_queue_order(order) == s.with_queue_order(order).with_capacity(capacity),
        s.with_max_message_size(max_size).with_queue_order(order) == s.with_queue_order(order).with_max_message_size(max_size),
{
}

impl<'a, K: Kernel, Capacity, MaxMessageSize> View for Builder<'a, K, Capacity, MaxMessageSize> {
    type V = BuilderState;

    closed spec fn view(&self) -> BuilderState {
        BuilderState { maxmsz_overflow: self.maxmsz_overflow, raw: self.raw }
    }
}

impl<'a, K: Kernel> MessageBuffer<'a, K> {
    /// `acre_mbf`: Create a builder for `MessageBuffer`.
    pub fn build(kernel: &'a K) -> (r: Builder<'a, K, __capacity_is_not_specified__, __max_message_size_is_not_specified__>)
        ensures
            !r@.maxmsz_overflow,
            r@.raw == (T_CMBF { mbfatr: TA_NULL, maxmsz: 0, mbfsz: 0, mbfmb: 0 }),
    {
        Builder {
            kernel,
            capacity: __capacity_is_not_specified__,
            max_message_size: __max_message_size_is_not_specified__,
            maxmsz_overflow: false,
            raw: T_CMBF { mbfatr: TA_NULL, maxmsz: 0, mbfsz: 0, mbfmb: 0 },
        }
    }
}

impl<'a, K: Kernel, Capacity, MaxMessageSize> Builder<'a, K, Capacity, MaxMessageSize> {
    /// (**Mandatory**) Specify the capacity, measured in bytes.
    pub fn capacity(self, value: usize) -> (r: Builder<'a, K, (), MaxMessageSize>)
        ensures
            r@ == self@.with_capacity(value),
    {
        Builder {
            kernel: self.kernel,
            capacity: (),
            max_message_size: self.max_message_size,
            maxmsz_overflow: self.maxmsz_overflow,
            raw: T_CMBF { mbfsz: value, ..self.raw },
        }
    }

    /// (**Mandatory**) Specify the maximum message size, measured in bytes.
    /// A size that does not fit the kernel's field makes
    /// [`Builder::finish`] fail.
    pub fn max_message_size(self, value: usize) -> (r: Builder<'a, K, Capacity, ()>)
        ensures
            r@ == self@.with_max_message_size(value),
    {
        let (maxmsz, maxmsz_overflow) = if value <= u32::MAX as usize {
            (value as u32, false)
        } else {
            (0u32, true)
        };
        Builder {
            kernel: self.kernel,
            capacity: self.capacity,
            max_message_size: (),
            maxmsz_overflow,
            raw: T_CMBF { maxmsz, ..self.raw },
        }
    }

    /// Specify the queue order of senders. Defaults to `Fifo` when
    /// unspecified.
    pub fn queue_order(self, value: QueueOrder) -> (r: Self)
        ensures
            r@ == self@.with_queue_order(value),
    {
        Builder {
            kernel: self.kernel,
            capacity: self.capacity,
            max_message_size: self.max_message_size,
            maxmsz_overflow: self.maxmsz_overflow,
            raw: T_CMBF { mbfatr: value.as_raw_atr(), ..self.raw },
        }
    }
}

impl<'a, K: Kernel> Builder<'a, K, (), ()> {
    /// The record that [`Self::finish`] submits.
    pub fn record(&self) -> (r: T_CMBF)
        ensures
            r == self@.raw,
    {
        self.raw
    }

    /// Create a message buffer using the specified parameters.
    ///
    /// A maximum message size that did not fit fails with `OutOfMemory`
    /// without asking the kernel.
    pub fn finish(self) -> (r: Result<MessageBuffer<'a, K>, Error<BuildError>>)
        ensures
            self@.maxmsz_overflow ==> (r matches Err(e) && e@ == E_NOMEM && e.is_classified()),
            r matches Err(e) ==> e@ < 0,
    {
        if self.maxmsz_overflow {
            return Err(Error::new_unchecked(ErrorCode::new_unchecked(E_NOMEM as isize)));
        }
        MessageBuffer::created(self.kernel, self.kernel.acre_mbf(&self.raw))
    }
}

/// An owned message buffer.
///
/// [Deletes] the message buffer automatically when dropped. If the kernel refuses
/// the deletion, the destructor terminates the kernel (`ext_ker`): an object
/// that this handle owned alone cannot be undeletable unless an invariant is
/// broken.
///
/// [Deletes]: MessageBufferRef::delete
#[derive(Debug)]
pub struct MessageBuffer<'a, K: Kernel> {
    inner: MessageBufferRef<'a, K>,
}

impl<'a, K: Kernel> PartialEq for MessageBuffer<'a, K> {
    fn eq(&self, other: &Self) -> (r: bool) {
        self.inner.id.get() == other.inner.id.get()
    }
}

impl<'a, K: Kernel> vstd::std_specs::cmp::PartialEqSpecImpl for MessageBuffer<'a, K> {
    open spec fn obeys_eq_spec() -> bool {
        true
    }

    open spec fn eq_spec(&self, other: &Self) -> bool {
        self@ == other@
    }
}

impl<'a, K: Kernel> Eq for MessageBuffer<'a, K> {
}

impl<'a, K: Kernel> View for MessageBuffer<'a, K> {
    type V = ID;

    /// The raw object ID.
    closed spec fn view(&self) -> ID {
        self.inner@
    }
}

impl<'a, K: Kernel> Drop for MessageBuffer<'a, K> {
    /// Deletes the message buffer, or terminates the kernel if that fails.
    ///
    /// Verus requires a destructor not to unwind. This one calls only
    /// [`MessageBuffer::dispose`], verified code that does not panic, and
    /// the kernel's service calls, which [`Kernel`] requires not to unwind.
    #[verifier::external_body]
    fn drop(&mut self)
        opens_invariants none
        no_unwind
    {
        self.dispose();
    }
}

impl<'a, K: Kernel> MessageBuffer<'a, K> {
    /// The outcome of a creation call that returned `code`: a handle owning
    /// the new object when `code` is a positive ID, the kernel integrity
    /// error `E_SYS` for the null ID, and the error `code` otherwise.
    fn created(kernel: &'a K, code: ER_ID) -> (r: Result<Self, Error<BuildError>>)
        ensures
            code > 0 ==> (r matches Ok(h) && h@ == code),
            code == 0 ==> (r matches Err(e) && e@ == E_SYS),
            code < 0 ==> (r matches Err(e) && e@ == code),
    {
        match Error::<BuildError>::err_if_negative(code as isize) {
            Ok(id) => match NonNullID::new(id as ID) {
                Some(id) => Ok(MessageBuffer { inner: MessageBufferRef { id, kernel } }),
                None => Err(Error::from_code(ErrorCode::new_unchecked(E_SYS as isize))),
            },
            Err(e) => Err(e),
        }
    }

    /// Deletes the message buffer that this handle owns. If the kernel refuses, the
    /// handle's invariant is broken, and the kernel is terminated
    /// (`ext_ker`). Returns whether the deletion succeeded.
    fn dispose(&self) -> (deleted: bool) {
        match self.inner.delete() {
            Ok(()) => true,
            Err(_) => {
                let _ = self.inner.kernel.ext_ker();
                false
            },
        }
    }
}

impl<'a, K: Kernel> MessageBuffer<'a, K> {
    /// Construct a `MessageBuffer` from a raw object ID.
    ///
    /// The caller asserts that `id` denotes a message buffer that exists and that
    /// nothing else owns.
    pub fn from_raw_nonnull(kernel: &'a K, id: NonNullID) -> (r: Self)
        ensures
            r@ == id.spec_get(),
    {
        MessageBuffer { inner: MessageBufferRef::from_raw_nonnull(kernel, id) }
    }

    /// Consume and "leak" `self`, returning a reference `MessageBufferRef<'a>`.
    /// The message buffer is not deleted.
    pub fn leak(self) -> (r: MessageBufferRef<'a, K>)
        ensures
            r@ == self@,
    {
        let this = core::mem::ManuallyDrop::new(self);
        this.inner
    }

    /// Get the raw object ID.
    pub fn as_raw(&self) -> (r: ID)
        ensures
            r == self@,
            r != 0,
    {
        self.inner.as_raw()
    }

    /// Get the raw object ID as [`NonNullID`].
    pub fn as_raw_nonnull(&self) -> (r: NonNullID)
        ensures
            r.spec_get() == self@,
    {
        self.inner.as_raw_nonnull()
    }

    /// Borrow `MessageBuffer` as [`MessageBufferRef`].
    ///
    /// Use this to perform operations on message buffers because most of the
    /// methods are implemented on `MessageBufferRef` but not `MessageBuffer`.
    pub fn as_ref(&self) -> (r: MessageBufferRef<'_, K>)
        ensures
            r@ == self@,
    {
        MessageBufferRef { id: self.inner.id, kernel: self.inner.kernel }
    }
}

} // verus!
