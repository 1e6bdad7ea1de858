//! The kernel's raw call surface: primitive types, constants, parameter
//! records and the service calls themselves.
//!
//! The service calls are gathered in the [`Kernel`] trait. An implementation
//! forwards each method to the kernel's function of the same name; nothing in
//! this crate assumes anything of what such a method returns.
#![allow(non_camel_case_types)]
#![allow(non_snake_case)]

use vstd::prelude::*;

verus! {

/// Signed integer of the kernel's natural size.
pub type int_t = i32;

/// Unsigned integer of the kernel's natural size.
pub type uint_t = u32;

/// Boolean as the kernel reports it.
pub type bool_t = int_t;

/// Error code.
pub type ER = int_t;

/// Object ID number.
pub type ID = int_t;

/// Object attribute.
pub type ATR = uint_t;

/// Object state.
pub type STAT = uint_t;

/// Service call mode.
pub type MODE = uint_t;

/// Priority.
pub type PRI = int_t;

/// Timeout.
pub type TMO = u32;

/// Relative time.
pub type RELTIM = u32;

/// Error code or boolean.
pub type ER_BOOL = int_t;

/// Error code or ID number.
pub type ER_ID = int_t;

/// Error code or unsigned integer.
pub type ER_UINT = int_t;

/// Access permission pattern.
pub type ACPTN = u32;

/// Event flag bit pattern.
pub type FLGPTN = uint_t;

/// System error.
pub const E_SYS: ER = -5;

/// Unsupported function.
pub const E_NOSPT: ER = -9;

/// Reserved function code.
pub const E_RSFN: ER = -10;

/// Reserved attribute.
pub const E_RSATR: ER = -11;

/// Parameter error.
pub const E_PAR: ER = -17;

/// Invalid ID number.
pub const E_ID: ER = -18;

/// Context error.
pub const E_CTX: ER = -25;

/// Memory access violation.
pub const E_MACV: ER = -26;

/// Object access violation.
pub const E_OACV: ER = -27;

/// Illegal service call use.
pub const E_ILUSE: ER = -28;

/// Insufficient memory.
pub const E_NOMEM: ER = -33;

/// No ID number available.
pub const E_NOID: ER = -34;

/// Insufficient resources.
pub const E_NORES: ER = -35;

/// Object state error.
pub const E_OBJ: ER = -41;

/// Non-existent object.
pub const E_NOEXS: ER = -42;

/// Queue overflow.
pub const E_QOVR: ER = -43;

/// Forced release from waiting.
pub const E_RLWAI: ER = -49;

/// Polling failure or timeout.
pub const E_TMOUT: ER = -50;

/// Waiting object deleted.
pub const E_DLT: ER = -51;

/// Waiting object state changed.
pub const E_CLS: ER = -52;

/// Termination request.
pub const E_RASTER: ER = -53;

/// Non-blocking call accepted.
pub const E_WBLK: ER = -57;

/// Buffer overflow.
pub const E_BOVR: ER = -58;

/// Communication error.
pub const E_COMM: ER = -65;

/// No object attribute.
pub const TA_NULL: ATR = 0;

/// Wait queue in task priority order.
pub const TA_TPRI: ATR = 0x01;

/// Event flag: multiple waiting tasks.
pub const TA_WMUL: ATR = 0x02;

/// Event flag: clear on wake-up.
pub const TA_CLR: ATR = 0x04;

/// Mutex: priority ceiling protocol.
pub const TA_CEILING: ATR = 0x03;

/// Mutex: priority inheritance protocol.
pub const TA_INHERIT: ATR = 0x02;

/// Task: activated on creation.
pub const TA_ACT: ATR = 0x01;

/// Task: no activation requests queued.
pub const TA_NOACTQUE: ATR = 0x02;

/// Task: restricted task.
pub const TA_RSTR: ATR = 0x04;

/// Task state: running.
pub const TTS_RUN: STAT = 0x01;

/// Task state: ready.
pub const TTS_RDY: STAT = 0x02;

/// Task state: waiting.
pub const TTS_WAI: STAT = 0x04;

/// Task state: suspended.
pub const TTS_SUS: STAT = 0x08;

/// Task state: waiting and suspended.
pub const TTS_WAS: STAT = 0x0c;

/// Task state: dormant.
pub const TTS_DMT: STAT = 0x10;

/// The calling task.
pub const TSK_SELF: ID = 0;

/// No task.
pub const TSK_NONE: ID = 0;

/// The calling task's base priority.
pub const TPRI_SELF: PRI = 0;

/// The task's initial priority.
pub const TPRI_INI: PRI = 0;

/// Polling.
pub const TMO_POL: TMO = 0;

/// Waiting forever.
pub const TMO_FEVR: TMO = 0xffff_ffff;

/// Non-blocking call.
pub const TMO_NBLK: TMO = 0xffff_fffe;

/// The largest relative time (66 minutes and 40 seconds in microseconds).
pub const TMAX_RELTIM: TMO = 4_000_000_000;

/// Access permitted to the kernel domain only.
pub const TACP_KERNEL: ACPTN = 0;

/// Access permitted to all domains.
pub const TACP_SHARED: ACPTN = 0xffff_ffff;

/// A nonzero object ID: an object that is known to exist.
#[derive(Debug, Clone, Copy, PartialEq, Eq, Hash, PartialOrd, Ord)]
pub struct NonNullID {
    value: ID,
}

impl NonNullID {
    #[verifier::type_invariant]
    spec fn nonzero(self) -> bool {
        self.value != 0
    }

    /// The raw value.
    pub closed spec fn spec_get(self) -> ID {
        self.value
    }

    /// Returns `None` if `value` is zero.
    pub fn new(value: ID) -> (r: Option<NonNullID>)
        ensures
            r is Some <==> value != 0,
            r matches Some(n) ==> n.spec_get() == value,
    {
        if value == 0 {
            None
        } else {
            Some(NonNullID { value })
        }
    }

    /// The raw value, which is never zero.
    pub fn get(self) -> (r: ID)
        ensures
            r == self.spec_get(),
            r != 0,
    {
        proof {
            use_type_invariant(self);
        }
        self.value
    }
}

/// The kernel's boolean `value` as a `bool`: true unless it is zero.
pub fn bool_of(value: bool_t) -> (r: bool)
    ensures
        r == (value != 0),
{
    value != 0
}

/// Access permission vector.
#[derive(Debug, Clone, Copy, PartialEq, Eq)]
pub struct acvct {
    /// Access permission pattern of normal operations 1.
    pub acptn1: ACPTN,
    /// Access permission pattern of normal operations 2.
    pub acptn2: ACPTN,
    /// Access permission pattern of management operations.
    pub acptn3: ACPTN,
    /// Access permission pattern of reference operations.
    pub acptn4: ACPTN,
}

/// Semaphore state.
#[derive(Debug, Clone, Copy, PartialEq, Eq)]
pub struct T_RSEM {
    /// The first waiting task's ID.
    pub wtskid: ID,
    /// The semaphore's count.
    pub semcnt: uint_t,
}

/// Event flag state.
#[derive(Debug, Clone, Copy, PartialEq, Eq)]
pub struct T_RFLG {
    /// The first waiting task's ID.
    pub wtskid: ID,
    /// The current bit pattern.
    pub flgptn: FLGPTN,
}

/// Dataqueue state.
#[derive(Debug, Clone, Copy, PartialEq, Eq)]
pub struct T_RDTQ {
    /// The first waiting sender's ID.
    pub stskid: ID,
    /// The first waiting receiver's ID.
    pub rtskid: ID,
    /// The number of data elements held.
    pub sdtqcnt: uint_t,
}

/// Priority dataqueue state.
#[derive(Debug, Clone, Copy, PartialEq, Eq)]
pub struct T_RPDQ {
    /// The first waiting sender's ID.
    pub stskid: ID,
    /// The first waiting receiver's ID.
    pub rtskid: ID,
    /// The number of data elements held.
    pub spdqcnt: uint_t,
}

/// Mutex state.
#[derive(Debug, Clone, Copy, PartialEq, Eq)]
pub struct T_RMTX {
    /// The owning task's ID.
    pub htskid: ID,
    /// The first waiting task's ID.
    pub wtskid: ID,
}

/// Message buffer state.
#[derive(Debug, Clone, Copy, PartialEq, Eq)]
pub struct T_RMBF {
    /// The first waiting sender's ID.
    pub stskid: ID,
    /// The first waiting receiver's ID.
    pub rtskid: ID,
    /// The number of messages held.
    pub smbfcnt: uint_t,
    /// The free space in bytes.
    pub fmbfsz: usize,
}

/// Fixed-size memory pool state.
#[derive(Debug, Clone, Copy, PartialEq, Eq)]
pub struct T_RMPF {
    /// The first waiting task's ID.
    pub wtskid: ID,
    /// The number of free blocks.
    pub fblkcnt: uint_t,
}

/// Task state.
#[derive(Debug, Clone, Copy, PartialEq, Eq)]
pub struct T_RTSK {
    /// Task state.
    pub tskstat: STAT,
    /// Current priority.
    pub tskpri: PRI,
    /// Base priority.
    pub tskbpri: PRI,
    /// Reason for waiting.
    pub tskwait: STAT,
    /// The ID of the object waited for.
    pub wobjid: ID,
    /// Time left until timeout.
    pub lefttmo: TMO,
    /// Number of queued activation requests.
    pub actcnt: uint_t,
    /// Number of queued wake-up requests.
    pub wupcnt: uint_t,
    /// Termination request pending.
    pub raster: bool_t,
    /// Termination disabled.
    pub dister: bool_t,
}

/// Task creation record.
#[derive(Debug, Clone, Copy, PartialEq, Eq)]
pub struct T_CTSK {
    /// Attribute.
    pub tskatr: ATR,
    /// Extended information handed to the entry point.
    pub exinf: isize,
    /// Address of the entry point; zero for none.
    pub task: usize,
    /// Initial priority.
    pub itskpri: PRI,
    /// Stack size in bytes.
    pub stksz: usize,
    /// Address of the stack; zero lets the kernel allocate it.
    pub stk: usize,
}

/// Semaphore creation record.
#[derive(Debug, Clone, Copy, PartialEq, Eq)]
pub struct T_CSEM {
    /// Attribute.
    pub sematr: ATR,
    /// Initial count.
    pub isemcnt: uint_t,
    /// Maximum count.
    pub maxsem: uint_t,
}

/// Event flag creation record.
#[derive(Debug, Clone, Copy, PartialEq, Eq)]
pub struct T_CFLG {
    /// Attribute.
    pub flgatr: ATR,
    /// Initial bit pattern.
    pub iflgptn: FLGPTN,
}

/// Dataqueue creation record.
#[derive(Debug, Clone, Copy, PartialEq, Eq)]
pub struct T_CDTQ {
    /// Attribute.
    pub dtqatr: ATR,
    /// Capacity in data elements.
    pub dtqcnt: uint_t,
    /// Address of the management area; zero lets the kernel allocate it.
    pub dtqmb: usize,
}

/// Priority dataqueue creation record.
#[derive(Debug, Clone, Copy, PartialEq, Eq)]
pub struct T_CPDQ {
    /// Attribute.
    pub pdqatr: ATR,
    /// Capacity in data elements.
    pub pdqcnt: uint_t,
    /// Largest data priority.
    pub maxdpri: PRI,
    /// Address of the management area; zero lets the kernel allocate it.
    pub pdqmb: usize,
}

/// Mutex creation record.
#[derive(Debug, Clone, Copy, PartialEq, Eq)]
pub struct T_CMTX {
    /// Attribute.
    pub mtxatr: ATR,
    /// Priority ceiling.
    pub ceilpri: PRI,
}

/// Message buffer creation record.
#[derive(Debug, Clone, Copy, PartialEq, Eq)]
pub struct T_CMBF {
    /// Attribute.
    pub mbfatr: ATR,
    /// Largest message size in bytes.
    pub maxmsz: uint_t,
    /// Buffer size in bytes.
    pub mbfsz: usize,
    /// Address of the buffer; zero lets the kernel allocate it.
    pub mbfmb: usize,
}

/// Fixed-size memory pool creation record.
#[derive(Debug, Clone, Copy, PartialEq, Eq)]
pub struct T_CMPF {
    /// Attribute.
    pub mpfatr: ATR,
    /// Number of blocks.
    pub blkcnt: uint_t,
    /// Block size in bytes.
    pub blksz: uint_t,
    /// Address of the pool area; zero lets the kernel allocate it.
    pub mpf: usize,
    /// Address of the management area; zero lets the kernel allocate it.
    pub mpfmb: usize,
}

/// The kernel's service calls.
///
/// Each method issues the service call of the same name. The methods carry no
/// postcondition: every function of this crate that calls one states what it
/// returns whatever the kernel answered. Their preconditions are what this
/// crate promises to hand over: an object ID that is not null, a timeout or
/// relative time that the kernel can represent, a message size that is the
/// message's length.
///
/// Implementations must not unwind (panic): the owning handles' destructors
/// call these methods, and a destructor must not unwind. A method that
/// forwards to the kernel's C function meets this.
pub trait Kernel {
    /// `acre_sem`
    fn acre_sem(&self, pk_csem: &T_CSEM) -> ER_ID;

    /// `del_sem`
    fn del_sem(&self, semid: ID) -> ER
        requires
            semid != 0,
    ;

    /// `sig_sem`
    fn sig_sem(&self, semid: ID) -> ER
        requires
            semid != 0,
    ;

    /// `wai_sem`
    fn wai_sem(&self, semid: ID) -> ER
        requires
            semid != 0,
    ;

    /// `pol_sem`
    fn pol_sem(&self, semid: ID) -> ER
        requires
            semid != 0,
    ;

    /// `twai_sem`
    fn twai_sem(&self, semid: ID, tmout: TMO) -> ER
        requires
            semid != 0,
            tmout <= TMAX_RELTIM || tmout == TMO_FEVR,
    ;

    /// `ini_sem`
    fn ini_sem(&self, semid: ID) -> ER
        requires
            semid != 0,
    ;

    /// `ref_sem`
    fn ref_sem(&self, semid: ID, pk_rsem: &mut T_RSEM) -> ER
        requires
            semid != 0,
    ;

    /// `acre_dtq`
    fn acre_dtq(&self, pk_cdtq: &T_CDTQ) -> ER_ID;

    /// `del_dtq`
    fn del_dtq(&self, dtqid: ID) -> ER
        requires
            dtqid != 0,
    ;

    /// `snd_dtq`
    fn snd_dtq(&self, dtqid: ID, data: isize) -> ER
        requires
            dtqid != 0,
    ;

    /// `psnd_dtq`
    fn psnd_dtq(&self, dtqid: ID, data: isize) -> ER
        requires
            dtqid != 0,
    ;

    /// `tsnd_dtq`
    fn tsnd_dtq(&self, dtqid: ID, data: isize, tmout: TMO) -> ER
        requires
            dtqid != 0,
            tmout <= TMAX_RELTIM || tmout == TMO_FEVR,
    ;

    /// `fsnd_dtq`
    fn fsnd_dtq(&self, dtqid: ID, data: isize) -> ER
        requires
            dtqid != 0,
    ;

    /// `rcv_dtq`
    fn rcv_dtq(&self, dtqid: ID, p_data: &mut isize) -> ER
        requires
            dtqid != 0,
    ;

    /// `prcv_dtq`
    fn prcv_dtq(&self, dtqid: ID, p_data: &mut isize) -> ER
        requires
            dtqid != 0,
    ;

    /// `trcv_dtq`
    fn trcv_dtq(&self, dtqid: ID, p_data: &mut isize, tmout: TMO) -> ER
        requires
            dtqid != 0,
            tmout <= TMAX_RELTIM || tmout == TMO_FEVR,
    ;

    /// `ini_dtq`
    fn ini_dtq(&self, dtqid: ID) -> ER
        requires
            dtqid != 0,
    ;

    /// `ref_dtq`
    fn ref_dtq(&self, dtqid: ID, pk_rdtq: &mut T_RDTQ) -> ER
        requires
            dtqid != 0,
    ;

    /// `acre_mtx`
    fn acre_mtx(&self, pk_cmtx: &T_CMTX) -> ER_ID;

    /// `del_mtx`
    fn del_mtx(&self, mtxid: ID) -> ER
        requires
            mtxid != 0,
    ;

    /// `loc_mtx`
    fn loc_mtx(&self, mtxid: ID) -> ER
        requires
            mtxid != 0,
    ;

    /// `ploc_mtx`
    fn ploc_mtx(&self, mtxid: ID) -> ER
        requires
            mtxid != 0,
    ;

    /// `tloc_mtx`
    fn tloc_mtx(&self, mtxid: ID, tmout: TMO) -> ER
        requires
            mtxid != 0,
            tmout <= TMAX_RELTIM || tmout == TMO_FEVR,
    ;

    /// `unl_mtx`
    fn unl_mtx(&self, mtxid: ID) -> ER
        requires
            mtxid != 0,
    ;

    /// `ini_mtx`
    fn ini_mtx(&self, mtxid: ID) -> ER
        requires
            mtxid != 0,
    ;

    /// `ref_mtx`
    fn ref_mtx(&self, mtxid: ID, pk_rmtx: &mut T_RMTX) -> ER
        requires
            mtxid != 0,
    ;

    /// `acre_mbf`
    fn acre_mbf(&self, pk_cmbf: &T_CMBF) -> ER_ID;

    /// `del_mbf`
    fn del_mbf(&self, mbfid: ID) -> ER
        requires
            mbfid != 0,
    ;

    /// `snd_mbf`
    fn snd_mbf(&self, mbfid: ID, msg: &[u8], msgsz: uint_t) -> ER
        requires
            mbfid != 0,
            msgsz == msg@.len(),
    ;

    /// `psnd_mbf`
    fn psnd_mbf(&self, mbfid: ID, msg: &[u8], msgsz: uint_t) -> ER
        requires
            mbfid != 0,
            msgsz == msg@.len(),
    ;

    /// `tsnd_mbf`
    fn tsnd_mbf(&self, mbfid: ID, msg: &[u8], msgsz: uint_t, tmout: TMO) -> ER
        requires
            mbfid != 0,
            msgsz == msg@.len(),
            tmout <= TMAX_RELTIM || tmout == TMO_FEVR,
    ;

    /// `rcv_mbf`: the kernel writes the message into `msg`, which must be at
    /// least as long as the buffer's maximum message size.
    fn rcv_mbf(&self, mbfid: ID, msg: &mut [u8]) -> ER_UINT
        requires
            mbfid != 0,
    ;

    /// `prcv_mbf`: the kernel writes the message into `msg`, which must be at
    /// least as long as the buffer's maximum message size.
    fn prcv_mbf(&self, mbfid: ID, msg: &mut [u8]) -> ER_UINT
        requires
            mbfid != 0,
    ;

    /// `trcv_mbf`: the kernel writes the message into `msg`, which must be at
    /// least as long as the buffer's maximum message size.
    fn trcv_mbf(&self, mbfid: ID, msg: &mut [u8], tmout: TMO) -> ER_UINT
        requires
            mbfid != 0,
            tmout <= TMAX_RELTIM || tmout == TMO_FEVR,
    ;

    /// `ini_mbf`
    fn ini_mbf(&self, mbfid: ID) -> ER
        requires
            mbfid != 0,
    ;

    /// `ref_mbf`
    fn ref_mbf(&self, mbfid: ID, pk_rmbf: &mut T_RMBF) -> ER
        requires
            mbfid != 0,
    ;

    /// `acre_mpf`
    fn acre_mpf(&self, pk_cmpf: &T_CMPF) -> ER_ID;

    /// `del_mpf`
    fn del_mpf(&self, mpfid: ID) -> ER
        requires
            mpfid != 0,
    ;

    /// `get_mpf`
    fn get_mpf(&self, mpfid: ID, p_blk: &mut usize) -> ER
        requires
            mpfid != 0,
    ;

    /// `pget_mpf`
    fn pget_mpf(&self, mpfid: ID, p_blk: &mut usize) -> ER
        requires
            mpfid != 0,
    ;

    /// `tget_mpf`
    fn tget_mpf(&self, mpfid: ID, p_blk: &mut usize, tmout: TMO) -> ER
        requires
            mpfid != 0,
            tmout <= TMAX_RELTIM || tmout == TMO_FEVR,
    ;

    /// `rel_mpf`
    fn rel_mpf(&self, mpfid: ID, blk: usize) -> ER
        requires
            mpfid != 0,
    ;

    /// `ini_mpf`
    fn ini_mpf(&self, mpfid: ID) -> ER
        requires
            mpfid != 0,
    ;

    /// `ref_mpf`
    fn ref_mpf(&self, mpfid: ID, pk_rmpf: &mut T_RMPF) -> ER
        requires
            mpfid != 0,
    ;

    /// `acre_tsk`
    fn acre_tsk(&self, pk_ctsk: &T_CTSK) -> ER_ID;

    /// `act_tsk`
    fn act_tsk(&self, tskid: ID) -> ER;

    /// `can_act`
    fn can_act(&self, tskid: ID) -> ER_UINT;

    /// `chg_pri`
    fn chg_pri(&self, tskid: ID, tskpri: PRI) -> ER;

    /// `get_pri`
    fn get_pri(&self, tskid: ID, p_tskpri: &mut PRI) -> ER;

    /// `get_tst`
    fn get_tst(&self, tskid: ID, p_tskstat: &mut STAT) -> ER;

    /// `ref_tsk`
    fn ref_tsk(&self, tskid: ID, pk_rtsk: &mut T_RTSK) -> ER;

    /// `del_tsk`
    fn del_tsk(&self, tskid: ID) -> ER;

    /// `wup_tsk`
    fn wup_tsk(&self, tskid: ID) -> ER;

    /// `can_wup`
    fn can_wup(&self, tskid: ID) -> ER_UINT;

    /// `rel_wai`
    fn rel_wai(&self, tskid: ID) -> ER;

    /// `sus_tsk`
    fn sus_tsk(&self, tskid: ID) -> ER;

    /// `rsm_tsk`
    fn rsm_tsk(&self, tskid: ID) -> ER;

    /// `ter_tsk`
    fn ter_tsk(&self, tskid: ID) -> ER;

    /// `ras_ter`
    fn ras_ter(&self, tskid: ID) -> ER;

    /// `slp_tsk`
    fn slp_tsk(&self) -> ER;

    /// `tslp_tsk`
    fn tslp_tsk(&self, tmout: TMO) -> ER
        requires
            tmout <= TMAX_RELTIM || tmout == TMO_FEVR,
    ;

    /// `dly_tsk`
    fn dly_tsk(&self, dlytim: RELTIM) -> ER
        requires
            dlytim <= TMAX_RELTIM,
    ;

    /// `ext_tsk`
    fn ext_tsk(&self) -> ER;

    /// `dis_ter`
    fn dis_ter(&self) -> ER;

    /// `ena_ter`
    fn ena_ter(&self) -> ER;

    /// `sns_ter`
    fn sns_ter(&self) -> bool_t;

    /// `get_tid`
    fn get_tid(&self, p_tskid: &mut ID) -> ER;

    /// `sns_ctx`
    fn sns_ctx(&self) -> bool_t;

    /// `sns_loc`
    fn sns_loc(&self) -> bool_t;

    /// `sns_dsp`
    fn sns_dsp(&self) -> bool_t;

    /// `sns_dpn`
    fn sns_dpn(&self) -> bool_t;

    /// `sns_ker`
    fn sns_ker(&self) -> bool_t;

    /// `ext_ker`
    fn ext_ker(&self) -> ER;
}

} // verus!
