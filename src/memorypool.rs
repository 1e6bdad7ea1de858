//! Fixed-size memory pools.
use vstd::prelude::*;

use crate::abi::{
    Kernel, NonNullID, ER_ID, E_CTX, E_DLT, E_ID, E_NOEXS, E_NOID, E_NOMEM, E_NOSPT, E_OBJ, E_PAR, E_RASTER,
    E_RLWAI, E_RSATR, E_SYS, E_TMOUT, ID, TA_NULL, T_CMPF, T_RMPF,
};
use crate::error::{
    check, kind, unit_result, Error, ErrorCode, ErrorKind, Kind, Never, __Unstable,
};
use crate::time::Timeout;
use crate::wait::QueueOrder;

verus! {

/// Error type for [`MemoryPoolRef::get`].
#[derive(Debug, Clone, Copy, PartialEq, Eq)]
pub enum GetError {
    BadContext(Kind),
    /// The task is a restricted task.
    NotSupported(Kind),
    BadId(Kind),
    AccessDenied(Never),
    Released(Kind),
    TerminateRequest(Kind),
    Deleted(Kind),
}

impl ErrorKind for GetError {
    open spec fn spec_from_error_code(code: int) -> Option<Self> {
        if code == E_CTX {
            Some(GetError::BadContext(kind()))
        } else if code == E_NOSPT {
            Some(GetError::NotSupported(kind()))
        } else if code == E_ID || code == E_NOEXS {
            Some(GetError::BadId(kind()))
        } else if code == E_RLWAI {
            Some(GetError::Released(kind()))
        } else if code == E_RASTER {
            Some(GetError::TerminateRequest(kind()))
        } else if code == E_DLT {
            Some(GetError::Deleted(kind()))
        } else {
            None
        }
    }

    fn from_error_code(code: ErrorCode) -> (r: Option<Self>) {
        let c = code.get();
        if c == E_CTX as isize {
            Some(GetError::BadContext(Kind(__Unstable)))
        } else if c == E_NOSPT as isize {
            Some(GetError::NotSupported(Kind(__Unstable)))
        } else if c == E_ID as isize || c == E_NOEXS as isize {
            Some(GetError::BadId(Kind(__Unstable)))
        } else if c == E_RLWAI as isize {
            Some(GetError::Released(Kind(__Unstable)))
        } else if c == E_RASTER as isize {
            Some(GetError::TerminateRequest(Kind(__Unstable)))
        } else if c == E_DLT as isize {
            Some(GetError::Deleted(Kind(__Unstable)))
        } else {
            None
        }
    }
}

/// Error type for [`MemoryPoolRef::get_timeout`].
#[derive(Debug, Clone, Copy, PartialEq, Eq)]
pub enum GetTimeoutError {
    BadContext(Kind),
    /// The task is a restricted task.
    NotSupported(Kind),
    BadId(Kind),
    AccessDenied(Never),
    Timeout(Kind),
    Released(Kind),
    TerminateRequest(Kind),
    Deleted(Kind),
}

impl ErrorKind for GetTimeoutError {
    open spec fn spec_from_error_code(code: int) -> Option<Self> {
        if code == E_CTX {
            Some(GetTimeoutError::BadContext(kind()))
        } else if code == E_NOSPT {
            Some(GetTimeoutError::NotSupported(kind()))
        } else if code == E_ID || code == E_NOEXS {
            Some(GetTimeoutError::BadId(kind()))
        } else if code == E_TMOUT {
            Some(GetTimeoutError::Timeout(kind()))
        } else if code == E_RLWAI {
            Some(GetTimeoutError::Released(kind()))
        } else if code == E_RASTER {
            Some(GetTimeoutError::TerminateRequest(kind()))
        } else if code == E_DLT {
            Some(GetTimeoutError::Deleted(kind()))
        } else {
            None
        }
    }

    fn from_error_code(code: ErrorCode) -> (r: Option<Self>) {
        let c = code.get();
        if c == E_CTX as isize {
            Some(GetTimeoutError::BadContext(Kind(__Unstable)))
        } else if c == E_NOSPT as isize {
            Some(GetTimeoutError::NotSupported(Kind(__Unstable)))
        } else if c == E_ID as isize || c == E_NOEXS as isize {
            Some(GetTimeoutError::BadId(Kind(__Unstable)))
        } else if c == E_TMOUT as isize {
            Some(GetTimeoutError::Timeout(Kind(__Unstable)))
        } else if c == E_RLWAI as isize {
            Some(GetTimeoutError::Released(Kind(__Unstable)))
        } else if c == E_RASTER as isize {
            Some(GetTimeoutError::TerminateRequest(Kind(__Unstable)))
        } else if c == E_DLT as isize {
            Some(GetTimeoutError::Deleted(Kind(__Unstable)))
        } else {
            None
        }
    }
}

/// Error type for [`MemoryPoolRef::try_get`].
#[derive(Debug, Clone, Copy, PartialEq, Eq)]
pub enum TryGetError {
    BadContext(Kind),
    BadId(Kind),
    AccessDenied(Never),
    Timeout(Kind),
}

impl ErrorKind for TryGetError {
    open spec fn spec_from_error_code(code: int) -> Option<Self> {
        if code == E_CTX {
            Some(TryGetError::BadContext(kind()))
        } else if code == E_ID || code == E_NOEXS {
            Some(TryGetError::BadId(kind()))
        } else if code == E_TMOUT {
            Some(TryGetError::Timeout(kind()))
        } else {
            None
        }
    }

    fn from_error_code(code: ErrorCode) -> (r: Option<Self>) {
        let c = code.get();
        if c == E_CTX as isize {
            Some(TryGetError::BadContext(Kind(__Unstable)))
        } else if c == E_ID as isize || c == E_NOEXS as isize {
            Some(TryGetError::BadId(Kind(__Unstable)))
        } else if c == E_TMOUT as isize {
            Some(TryGetError::Timeout(Kind(__Unstable)))
        } else {
            None
        }
    }
}

/// Error type for [`MemoryPoolRef::release`].
#[derive(Debug, Clone, Copy, PartialEq, Eq)]
pub enum ReleaseError {
    BadContext(Kind),
    BadId(Kind),
    AccessDenied(Never),
    /// The supplied memory block does not originate from the memory pool.
    BadParam(Kind),
}

impl ErrorKind for ReleaseError {
    open spec fn spec_from_error_code(code: int) -> Option<Self> {
        if code == E_CTX {
            Some(ReleaseError::BadContext(kind()))
        } else if code == E_ID || code == E_NOEXS {
            Some(ReleaseError::BadId(kind()))
        } else if code == E_PAR {
            Some(ReleaseError::BadParam(kind()))
        } else {
            None
        }
    }

    fn from_error_code(code: ErrorCode) -> (r: Option<Self>) {
        let c = code.get();
        if c == E_CTX as isize {
            Some(ReleaseError::BadContext(Kind(__Unstable)))
        } else if c == E_ID as isize || c == E_NOEXS as isize {
            Some(ReleaseError::BadId(Kind(__Unstable)))
        } else if c == E_PAR as isize {
            Some(ReleaseError::BadParam(Kind(__Unstable)))
        } else {
            None
        }
    }
}

/// Error type for [`MemoryPoolRef::initialize`].
#[derive(Debug, Clone, Copy, PartialEq, Eq)]
pub enum InitializeError {
    BadContext(Kind),
    BadId(Kind),
    AccessDenied(Never),
}

impl ErrorKind for InitializeError {
    open spec fn spec_from_error_code(code: int) -> Option<Self> {
        if code == E_CTX {
            Some(InitializeError::BadContext(kind()))
        } else if code == E_ID || code == E_NOEXS {
            Some(InitializeError::BadId(kind()))
        } else {
            None
        }
    }

    fn from_error_code(code: ErrorCode) -> (r: Option<Self>) {
        let c = code.get();
        if c == E_CTX as isize {
            Some(InitializeError::BadContext(Kind(__Unstable)))
        } else if c == E_ID as isize || c == E_NOEXS as isize {
            Some(InitializeError::BadId(Kind(__Unstable)))
        } else {
            None
        }
    }
}

/// Error type for [`MemoryPoolRef::info`].
#[derive(Debug, Clone, Copy, PartialEq, Eq)]
pub enum InfoError {
    BadContext(Kind),
    BadId(Kind),
    AccessDenied(Never),
}

impl ErrorKind for InfoError {
    open spec fn spec_from_error_code(code: int) -> Option<Self> {
        if code == E_CTX {
            Some(InfoError::BadContext(kind()))
        } else if code == E_ID || code == E_NOEXS {
            Some(InfoError::BadId(kind()))
        } else {
            None
        }
    }

    fn from_error_code(code: ErrorCode) -> (r: Option<Self>) {
        let c = code.get();
        if c == E_CTX as isize {
            Some(InfoError::BadContext(Kind(__Unstable)))
        } else if c == E_ID as isize || c == E_NOEXS as isize {
            Some(InfoError::BadId(Kind(__Unstable)))
        } else {
            None
        }
    }
}

/// Error type for [`MemoryPool::build`].
#[derive(Debug, Clone, Copy, PartialEq, Eq)]
pub enum BuildError {
    BadContext(Kind),
    AccessDenied(Never),
    /// The specified parameter is not supported by the kernel.
    ///
    ///  - On TOPPERS/HRP3, automatic allocation of a memory pool data
    ///    storage is not supported (`E_NOSPT`, HRPS0199).
    ///
    NotSupported(Never),
    /// Ran out of memory or memory pool IDs, or the specified block size
    /// or capacity does not fit in `uint_t`.
    OutOfMemory(Kind),
    /// Bad parameter.
    BadParam(Kind),
}

impl ErrorKind for BuildError {
    open spec fn spec_from_error_code(code: int) -> Option<Self> {
        if code == E_CTX {
            Some(BuildError::BadContext(kind()))
        } else if code == E_NOID || code == E_NOMEM {
            Some(BuildError::OutOfMemory(kind()))
        } else if code == E_PAR || code == E_RSATR {
            Some(BuildError::BadParam(kind()))
        } else {
            None
        }
    }

    fn from_error_code(code: ErrorCode) -> (r: Option<Self>) {
        let c = code.get();
        if c == E_CTX as isize {
            Some(BuildError::BadContext(Kind(__Unstable)))
        } else if c == E_NOID as isize || c == E_NOMEM as isize {
            Some(BuildError::OutOfMemory(Kind(__Unstable)))
        } else if c == E_PAR as isize || c == E_RSATR as isize {
            Some(BuildError::BadParam(Kind(__Unstable)))
        } else {
            None
        }
    }
}

/// Error type for [`MemoryPoolRef::delete`].
#[derive(Debug, Clone, Copy, PartialEq, Eq)]
pub enum DeleteError {
    BadContext(Kind),
    BadId(Kind),
    AccessDenied(Never),
    BadState(Kind),
}

impl ErrorKind for DeleteError {
    open spec fn spec_from_error_code(code: int) -> Option<Self> {
        if code == E_CTX {
            Some(DeleteError::BadContext(kind()))
        } else if code == E_ID || code == E_NOEXS {
            Some(DeleteError::BadId(kind()))
        } else if code == E_OBJ {
            Some(DeleteError::BadState(kind()))
        } else {
            None
        }
    }

    fn from_error_code(code: ErrorCode) -> (r: Option<Self>) {
        let c = code.get();
        if c == E_CTX as isize {
            Some(DeleteError::BadContext(Kind(__Unstable)))
        } else if c == E_ID as isize || c == E_NOEXS as isize {
            Some(DeleteError::BadId(Kind(__Unstable)))
        } else if c == E_OBJ as isize {
            Some(DeleteError::BadState(Kind(__Unstable)))
        } else {
            None
        }
    }
}
/// A memory block, by its address.
pub type Block = usize;

/// Memory pool information returned by [`MemoryPoolRef::info`].
#[derive(Debug, Clone, Copy)]
pub struct Info {
    raw: T_RMPF,
}

impl View for Info {
    type V = T_RMPF;

    closed spec fn view(&self) -> T_RMPF {
        self.raw
    }
}

impl Info {
    /// Get the number of free memory blocks.
    pub fn free_block_count(&self) -> (r: usize)
        ensures
            r == self@.fblkcnt,
    {
        self.raw.fblkcnt as usize
    }

    /// Get the first waiting task's ID.
    pub fn first_waiting_task_id(&self) -> (r: Option<NonNullID>)
        ensures
            r is Some <==> self@.wtskid != 0,
            r matches Some(id) ==> id.spec_get() == self@.wtskid,
    {
        NonNullID::new(self.raw.wtskid)
    }
}

/// A borrowed reference to a memory pool.
///
/// The lifetime `'a` bounds both the borrow of the kernel and the time for
/// which the memory pool is known to exist.
#[derive(Debug)]
pub struct MemoryPoolRef<'a, K: Kernel> {
    id: NonNullID,
    kernel: &'a K,
}

impl<'a, K: Kernel> Clone for MemoryPoolRef<'a, K> {
    fn clone(&self) -> (r: Self)
        ensures
            r == *self,
    {
        *self
    }
}

impl<'a, K: Kernel> Copy for MemoryPoolRef<'a, K> {
}

impl<'a, K: Kernel> PartialEq for MemoryPoolRef<'a, K> {
    fn eq(&self, other: &Self) -> (r: bool) {
        self.id.get() == other.id.get()
    }
}

impl<'a, K: Kernel> vstd::std_specs::cmp::PartialEqSpecImpl for MemoryPoolRef<'a, K> {
    open spec fn obeys_eq_spec() -> bool {
        true
    }

    open spec fn eq_spec(&self, other: &Self) -> bool {
        self@ == other@
    }
}

impl<'a, K: Kernel> Eq for MemoryPoolRef<'a, K> {
}

impl<'a, K: Kernel> View for MemoryPoolRef<'a, K> {
    type V = ID;

    /// The raw object ID.
    closed spec fn view(&self) -> ID {
        self.id.spec_get()
    }
}

/// # Object ID conversion
impl<'a, K: Kernel> MemoryPoolRef<'a, K> {
    /// Construct a `MemoryPoolRef` from a raw object ID.
    ///
    /// The caller asserts that `id` denotes a memory pool that exists for at
    /// least `'a`.
    pub fn from_raw_nonnull(kernel: &'a K, id: NonNullID) -> (r: Self)
        ensures
            r@ == id.spec_get(),
    {
        MemoryPoolRef { id, kernel }
    }

    /// Get the raw object ID.
    pub fn as_raw(self) -> (r: ID)
        ensures
            r == self@,
            r != 0,
    {
        self.id.get()
    }

    /// Get the raw object ID as [`NonNullID`].
    pub fn as_raw_nonnull(self) -> (r: NonNullID)
        ensures
            r.spec_get() == self@,
    {
        self.id
    }
}

/// # Management
impl<'a, K: Kernel> MemoryPoolRef<'a, K> {
    /// `del_mpf`: Delete the memory pool.
    ///
    /// The caller asserts that no owning handle or other reference is used
    /// for the memory pool afterwards.
    pub fn delete(self) -> (r: Result<(), Error<DeleteError>>)
        ensures
            unit_result(r),
    {
        check(self.kernel.del_mpf(self.id.get()))
    }

    /// `ref_mpf`: Get the memory pool's general information.
    pub fn info(self) -> (r: Result<Info, Error<InfoError>>)
        ensures
            r matches Err(e) ==> e@ < 0,
    {
        let mut raw = T_RMPF { wtskid: 0, fblkcnt: 0 };
        match check(self.kernel.ref_mpf(self.id.get(), &mut raw)) {
            Ok(()) => Ok(Info { raw }),
            Err(e) => Err(e),
        }
    }
}

/// The block address `blk` as a result: the block when `code` reports
/// success.
fn obtained<T: ErrorKind>(code: crate::abi::ER, blk: usize) -> (r: Result<Block, Error<T>>)
    ensures
        code >= 0 <==> r is Ok,
        r matches Ok(b) ==> b == blk,
        r matches Err(e) ==> e@ == code,
{
    match check(code) {
        Ok(()) => Ok(blk),
        Err(e) => Err(e),
    }
}

/// # Memory Pool Operations
impl<'a, K: Kernel> MemoryPoolRef<'a, K> {
    /// `get_mpf`: Acquire a memory block. Blocks the current task if no free
    /// memory blocks are available.
    pub fn get(self) -> (r: Result<Block, Error<GetError>>)
        ensures
            r matches Err(e) ==> e@ < 0,
    {
        let mut blk: usize = 0;
        let code = self.kernel.get_mpf(self.id.get(), &mut blk);
        obtained(code, blk)
    }

    /// `tget_mpf`: Acquire a memory block. Blocks the current task with
    /// timeout if no free memory blocks are available.
    pub fn get_timeout(self, tmo: Timeout) -> (r: Result<Block, Error<GetTimeoutError>>)
        ensures
            r matches Err(e) ==> e@ < 0,
    {
        let mut blk: usize = 0;
        let code = self.kernel.tget_mpf(self.id.get(), &mut blk, tmo.as_raw());
        obtained(code, blk)
    }

    /// `pget_mpf`: Acquire a memory block. Fails and returns an error if no
    /// free memory blocks are available.
    pub fn try_get(self) -> (r: Result<Block, Error<TryGetError>>)
        ensures
            r matches Err(e) ==> e@ < 0,
    {
        let mut blk: usize = 0;
        let code = self.kernel.pget_mpf(self.id.get(), &mut blk);
        obtained(code, blk)
    }

    /// `rel_mpf`: Return a memory block to the memory pool.
    pub fn release(self, block: Block) -> (r: Result<(), Error<ReleaseError>>)
        ensures
            unit_result(r),
    {
        check(self.kernel.rel_mpf(self.id.get(), block))
    }

    /// `ini_mpf`: Initialize the memory pool.
    pub fn initialize(self) -> (r: Result<(), Error<InitializeError>>)
        ensures
            unit_result(r),
    {
        check(self.kernel.ini_mpf(self.id.get()))
    }
}

/// The placeholder for a builder's block size before it is specified.
#[allow(non_camel_case_types)]
pub struct __block_size_is_not_specified__;

/// The placeholder for a builder's block count before it is specified.
#[allow(non_camel_case_types)]
pub struct __block_count_is_not_specified__;

/// The builder type for [memory pools](MemoryPool). Created by
/// [`MemoryPool::build`].
///
/// `BlockSize` and `BlockCount` are `()` once the respective field is
/// specified; only then can the builder finish.
pub struct Builder<'a, K: Kernel, BlockSize, BlockCount> {
    kernel: &'a K,
    block_size: BlockSize,
    block_count: BlockCount,
    blkcnt_overflow: bool,
    blksz_overflow: bool,
    raw: T_CMPF,
}

/// What a memory pool builder holds: the record so far, and whether the
/// block size or count did not fit the record's field.
pub struct BuilderState {
    pub blksz_overflow: bool,
    pub blkcnt_overflow: bool,
    pub raw: T_CMPF,
}

impl BuilderState {
    /// The state after the block size is set to `value`.
    pub open spec fn with_block_size(self, value: usize) -> BuilderState {
        if value <= u32::MAX {
            BuilderState { blksz_overflow: false, raw: T_CMPF { blksz: value as u32, ..self.raw }, ..self }
        } else {
            BuilderState { blksz_overflow: true, raw: T_CMPF { blksz: 0, ..self.raw }, ..self }
        }
    }

    /// The state after the block count is set to `value`.
    pub open spec fn with_block_count(self, value: usize) -> BuilderState {
        if value <= u32::MAX {
            BuilderState { blkcnt_overflow: false, raw: T_CMPF { blkcnt: value as u32, ..self.raw }, ..self }
        } else {
            BuilderState { blkcnt_overflow: true, raw: T_CMPF { blkcnt: 0, ..self.raw }, ..self }
        }
    }

    /// The state after the queue order is set to `value`.
    pub open spec fn with_queue_order(self, value: QueueOrder) -> BuilderState {
        BuilderState { raw: T_CMPF { mpfatr: value.spec_atr(), ..self.raw }, ..self }
    }
}

/// The fields of a memory pool builder may be set in any order: each pair
/// of setters commutes, so every order leaves the same state, hence the same
/// record.
pub proof fn lemma_fields_commute(s: BuilderState, size: usize, count: usize, order: QueueOrder)
    ensures
        s.with_block_size(size).with_block_count(count) == s.with_block_count(count).with_block_size(size),
        s.with_block_size(size).with_queue_order(order) == s.with_queue_order(order).with_block_size(size),
        s.with_block_count(count).with_queue_order(order) == s.with_queue_order(order).with_block_count(count),
{
}

impl<'a, K: Kernel, BlockSize, BlockCount> View for Builder<'a, K, BlockSize, BlockCount> {
    type V = BuilderState;

    closed spec fn view(&self) -> BuilderState {
        BuilderState {
            blksz_overflow: self.blksz_overflow,
            blkcnt_overflow: self.blkcnt_overflow,
            raw: self.raw,
        }
    }
}

impl<'a, K: Kernel> MemoryPool<'a, K> {
    /// `acre_mpf`: Create a builder for `MemoryPool`.
    pub fn build(kernel: &'a K) -> (r: Builder<'a, K, __block_size_is_not_specified__, __block_count_is_not_specified__>)
        ensures
            !r@.blksz_overflow,
            !r@.blkcnt_overflow,
            r@.raw == (T_CMPF { mpfatr: TA_NULL, blkcnt: 0, blksz: 0, mpf: 0, mpfmb: 0 }),
    {
        Builder {
            kernel,
            block_size: __block_size_is_not_specified__,
            block_count: __block_count_is_not_specified__,
            blkcnt_overflow: false,
            blksz_overflow: false,
            raw: T_CMPF { mpfatr: TA_NULL, blkcnt: 0, blksz: 0, mpf: 0, mpfmb: 0 },
        }
    }
}

impl<'a, K: Kernel, BlockSize, BlockCount> Builder<'a, K, BlockSize, BlockCount> {
    /// (**Mandatory**) Specify the block size in bytes. A size that does not
    /// fit the kernel's field makes [`Builder::finish`] fail.
    pub fn block_size(self, value: usize) -> (r: Builder<'a, K, (), BlockCount>)
        ensures
            r@ == self@.with_block_size(value),
    {
        let (blksz, blksz_overflow) = if value <= u32::MAX as usize {
            (value as u32, false)
        } else {
            (0u32, true)
        };
        Builder {
            kernel: self.kernel,
            block_size: (),
            block_count: self.block_count,
            blkcnt_overflow: self.blkcnt_overflow,
            blksz_overflow,
            raw: T_CMPF { blksz, ..self.raw },
        }
    }

    /// (**Mandatory**) Specify the number of blocks. A count that does not
    /// fit the kernel's field makes [`Builder::finish`] fail.
    pub fn block_count(self, value: usize) -> (r: Builder<'a, K, BlockSize, ()>)
        ensures
            r@ == self@.with_block_count(value),
    {
        let (blkcnt, blkcnt_overflow) = if value <= u32::MAX as usize {
            (value as u32, false)
        } else {
            (0u32, true)
        };
        Builder {
            kernel: self.kernel,
            block_size: self.block_size,
            block_count: (),
            blkcnt_overflow,
            blksz_overflow: self.blksz_overflow,
            raw: T_CMPF { blkcnt, ..self.raw },
        }
    }

    /// Specify the queue order. Defaults to `Fifo` when unspecified.
    pub fn queue_order(self, value: QueueOrder) -> (r: Self)
        ensures
            r@ == self@.with_queue_order(value),
    {
        Builder {
            kernel: self.kernel,
            block_size: self.block_size,
            block_count: self.block_count,
            blkcnt_overflow: self.blkcnt_overflow,
            blksz_overflow: self.blksz_overflow,
            raw: T_CMPF { mpfatr: value.as_raw_atr(), ..self.raw },
        }
    }
}

impl<'a, K: Kernel> Builder<'a, K, (), ()> {
    /// The record that [`Self::finish`] submits.
    pub fn record(&self) -> (r: T_CMPF)
        ensures
            r == self@.raw,
    {
        self.raw
    }

    /// Create a memory pool using the specified parameters.
    ///
    /// A block size or count that did not fit fails with `OutOfMemory`
    /// without asking the kernel.
    pub fn finish(self) -> (r: Result<MemoryPool<'a, K>, Error<BuildError>>)
        ensures
            (self@.blksz_overflow || self@.blkcnt_overflow) ==> (r matches Err(e) && e@ == E_NOMEM && e.is_classified()),
            r matches Err(e) ==> e@ < 0,
    {
        if self.blksz_overflow || self.blkcnt_overflow {
            return Err(Error::new_unchecked(ErrorCode::new_unchecked(E_NOMEM as isize)));
        }
        MemoryPool::created(self.kernel, self.kernel.acre_mpf(&self.raw))
    }
}

/// An owned memory pool.
///
/// [Deletes] the memory pool automatically when dropped. If the kernel refuses
/// the deletion, the destructor terminates the kernel (`ext_ker`): an object
/// that this handle owned alone cannot be undeletable unless an invariant is
/// broken.
///
/// [Deletes]: MemoryPoolRef::delete
#[derive(Debug)]
pub struct MemoryPool<'a, K: Kernel> {
    inner: MemoryPoolRef<'a, K>,
}

impl<'a, K: Kernel> PartialEq for MemoryPool<'a, K> {
    fn eq(&self, other: &Self) -> (r: bool) {
        self.inner.id.get() == other.inner.id.get()
    }
}

impl<'a, K: Kernel> vstd::std_specs::cmp::PartialEqSpecImpl for MemoryPool<'a, K> {
    open spec fn obeys_eq_spec() -> bool {
        true
    }

    open spec fn eq_spec(&self, other: &Self) -> bool {
        self@ == other@
    }
}

impl<'a, K: Kernel> Eq for MemoryPool<'a, K> {
}

impl<'a, K: Kernel> View for MemoryPool<'a, K> {
    type V = ID;

    /// The raw object ID.
    closed spec fn view(&self) -> ID {
        self.inner@
    }
}

impl<'a, K: Kernel> Drop for MemoryPool<'a, K> {
    /// Deletes the memory pool, or terminates the kernel if that fails.
    ///
    /// Verus requires a destructor not to unwind. This one calls only
    /// [`MemoryPool::dispose`], verified code that does not panic, and
    /// the kernel's service calls, which [`Kernel`] requires not to unwind.
    #[verifier::external_body]
    fn drop(&mut self)
        opens_invariants none
        no_unwind
    {
        self.dispose();
    }
}

impl<'a, K: Kernel> MemoryPool<'a, K> {
    /// The outcome of a creation call that returned `code`: a handle owning
    /// the new object when `code` is a positive ID, the kernel integrity
    /// error `E_SYS` for the null ID, and the error `code` otherwise.
    fn created(kernel: &'a K, code: ER_ID) -> (r: Result<Self, Error<BuildError>>)
        ensures
            code > 0 ==> (r matches Ok(h) && h@ == code),
            code == 0 ==> (r matches Err(e) && e@ == E_SYS),
            code < 0 ==> (r matches Err(e) && e@ == code),
    {
        match Error::<BuildError>::err_if_negative(code as isize) {
            Ok(id) => match NonNullID::new(id as ID) {
                Some(id) => Ok(MemoryPool { inner: MemoryPoolRef { id, kernel } }),
                None => Err(Error::from_code(ErrorCode::new_unchecked(E_SYS as isize))),
            },
            Err(e) => Err(e),
        }
    }

    /// Deletes the memory pool that this handle owns. If the kernel refuses, the
    /// handle's invariant is broken, and the kernel is terminated
    /// (`ext_ker`). Returns whether the deletion succeeded.
    fn dispose(&self) -> (deleted: bool) {
        match self.inner.delete() {
            Ok(()) => true,
            Err(_) => {
                let _ = self.inner.kernel.ext_ker();
                false
            },
        }
    }
}

impl<'a, K: Kernel> MemoryPool<'a, K> {
    /// Construct a `MemoryPool` from a raw object ID.
    ///
    /// The caller asserts that `id` denotes a memory pool that exists and that
    /// nothing else owns.
    pub fn from_raw_nonnull(kernel: &'a K, id: NonNullID) -> (r: Self)
        ensures
            r@ == id.spec_get(),
    {
        MemoryPool { inner: MemoryPoolRef::from_raw_nonnull(kernel, id) }
    }

    /// Consume and "leak" `self`, returning a reference `MemoryPoolRef<'a>`.
    /// The memory pool is not deleted.
    pub fn leak(self) -> (r: MemoryPoolRef<'a, K>)
        ensures
            r@ == self@,
    {
        let this = core::mem::ManuallyDrop::new(self);
        this.inner
    }

    /// Get the raw object ID.
    pub fn as_raw(&self) -> (r: ID)
        ensures
            r == self@,
            r != 0,
    {
        self.inner.as_raw()
    }

    /// Get the raw object ID as [`NonNullID`].
    pub fn as_raw_nonnull(&self) -> (r: NonNullID)
        ensures
            r.spec_get() == self@,
    {
        self.inner.as_raw_nonnull()
    }

    /// Borrow `MemoryPool` as [`MemoryPoolRef`].
    ///
    /// Use this to perform operations on memory pools because most of the
    /// methods are implemented on `MemoryPoolRef` but not `MemoryPool`.
    pub fn as_ref(&self) -> (r: MemoryPoolRef<'_, K>)
        ensures
            r@ == self@,
    {
        MemoryPoolRef { id: self.inner.id, kernel: self.inner.kernel }
    }
}

} // verus!
