use itron::abi::{E_COMM, E_CTX, E_DLT, E_ID, E_ILUSE, E_NOEXS, E_NOID, E_NOMEM, E_NOSPT, E_OACV, E_OBJ, E_PAR, E_QOVR, E_RASTER, E_RLWAI, E_RSATR, E_SYS, E_TMOUT, ER};
use itron::error::{Error, ErrorCode, ErrorKind};
use itron::kernel::ExitError;
use itron::semaphore::{SignalError, WaitTimeoutError};

fn code(c: ER) -> ErrorCode {
    ErrorCode::new(c as isize).unwrap()
}

#[test]
fn semaphore_error_kinds_classify_documented_codes() {
    assert!(matches!(itron::semaphore::SignalError::from_error_code(code(E_CTX)), Some(itron::semaphore::SignalError::BadContext(_))));
    assert!(matches!(itron::semaphore::SignalError::from_error_code(code(E_ID)), Some(itron::semaphore::SignalError::BadId(_))));
    assert!(matches!(itron::semaphore::SignalError::from_error_code(code(E_NOEXS)), Some(itron::semaphore::SignalError::BadId(_))));
    assert!(matches!(itron::semaphore::SignalError::from_error_code(code(E_QOVR)), Some(itron::semaphore::SignalError::QueueOverflow(_))));
    assert!(itron::semaphore::SignalError::from_error_code(code(E_SYS)).is_none());
    assert!(itron::semaphore::SignalError::from_error_code(code(-1000)).is_none());
    assert!(matches!(itron::semaphore::WaitError::from_error_code(code(E_CTX)), Some(itron::semaphore::WaitError::BadContext(_))));
    assert!(matches!(itron::semaphore::WaitError::from_error_code(code(E_NOSPT)), Some(itron::semaphore::WaitError::NotSupported(_))));
    assert!(matches!(itron::semaphore::WaitError::from_error_code(code(E_ID)), Some(itron::semaphore::WaitError::BadId(_))));
    assert!(matches!(itron::semaphore::WaitError::from_error_code(code(E_NOEXS)), Some(itron::semaphore::WaitError::BadId(_))));
    assert!(matches!(itron::semaphore::WaitError::from_error_code(code(E_RLWAI)), Some(itron::semaphore::WaitError::Released(_))));
    assert!(matches!(itron::semaphore::WaitError::from_error_code(code(E_RASTER)), Some(itron::semaphore::WaitError::TerminateRequest(_))));
    assert!(matches!(itron::semaphore::WaitError::from_error_code(code(E_DLT)), Some(itron::semaphore::WaitError::Deleted(_))));
    assert!(itron::semaphore::WaitError::from_error_code(code(E_SYS)).is_none());
    assert!(itron::semaphore::WaitError::from_error_code(code(-1000)).is_none());
    assert!(matches!(itron::semaphore::WaitTimeoutError::from_error_code(code(E_CTX)), Some(itron::semaphore::WaitTimeoutError::BadContext(_))));
    assert!(matches!(itron::semaphore::WaitTimeoutError::from_error_code(code(E_NOSPT)), Some(itron::semaphore::WaitTimeoutError::NotSupported(_))));
    assert!(matches!(itron::semaphore::WaitTimeoutError::from_error_code(code(E_ID)), Some(itron::semaphore::WaitTimeoutError::BadId(_))));
    assert!(matches!(itron::semaphore::WaitTimeoutError::from_error_code(code(E_NOEXS)), Some(itron::semaphore::WaitTimeoutError::BadId(_))));
    assert!(matches!(itron::semaphore::WaitTimeoutError::from_error_code(code(E_TMOUT)), Some(itron::semaphore::WaitTimeoutError::Timeout(_))));
    assert!(matches!(itron::semaphore::WaitTimeoutError::from_error_code(code(E_RLWAI)), Some(itron::semaphore::WaitTimeoutError::Released(_))));
    assert!(matches!(itron::semaphore::WaitTimeoutError::from_error_code(code(E_RASTER)), Some(itron::semaphore::WaitTimeoutError::TerminateRequest(_))));
    assert!(matches!(itron::semaphore::WaitTimeoutError::from_error_code(code(E_DLT)), Some(itron::semaphore::WaitTimeoutError::Deleted(_))));
    assert!(itron::semaphore::WaitTimeoutError::from_error_code(code(E_SYS)).is_none());
    assert!(itron::semaphore::WaitTimeoutError::from_error_code(code(-1000)).is_none());
    assert!(matches!(itron::semaphore::PollError::from_error_code(code(E_CTX)), Some(itron::semaphore::PollError::BadContext(_))));
    assert!(matches!(itron::semaphore::PollError::from_error_code(code(E_ID)), Some(itron::semaphore::PollError::BadId(_))));
    assert!(matches!(itron::semaphore::PollError::from_error_code(code(E_NOEXS)), Some(itron::semaphore::PollError::BadId(_))));
    assert!(itron::semaphore::PollError::from_error_code(code(E_SYS)).is_none());
    assert!(itron::semaphore::PollError::from_error_code(code(-1000)).is_none());
    assert!(matches!(itron::semaphore::InitializeError::from_error_code(code(E_CTX)), Some(itron::semaphore::InitializeError::BadContext(_))));
    assert!(matches!(itron::semaphore::InitializeError::from_error_code(code(E_ID)), Some(itron::semaphore::InitializeError::BadId(_))));
    assert!(matches!(itron::semaphore::InitializeError::from_error_code(code(E_NOEXS)), Some(itron::semaphore::InitializeError::BadId(_))));
    assert!(itron::semaphore::InitializeError::from_error_code(code(E_SYS)).is_none());
    assert!(itron::semaphore::InitializeError::from_error_code(code(-1000)).is_none());
    assert!(matches!(itron::semaphore::InfoError::from_error_code(code(E_CTX)), Some(itron::semaphore::InfoError::BadContext(_))));
    assert!(matches!(itron::semaphore::InfoError::from_error_code(code(E_ID)), Some(itron::semaphore::InfoError::BadId(_))));
    assert!(matches!(itron::semaphore::InfoError::from_error_code(code(E_NOEXS)), Some(itron::semaphore::InfoError::BadId(_))));
    assert!(itron::semaphore::InfoError::from_error_code(code(E_SYS)).is_none());
    assert!(itron::semaphore::InfoError::from_error_code(code(-1000)).is_none());
    assert!(matches!(itron::semaphore::BuildError::from_error_code(code(E_CTX)), Some(itron::semaphore::BuildError::BadContext(_))));
    assert!(matches!(itron::semaphore::BuildError::from_error_code(code(E_NOID)), Some(itron::semaphore::BuildError::OutOfMemory(_))));
    assert!(matches!(itron::semaphore::BuildError::from_error_code(code(E_PAR)), Some(itron::semaphore::BuildError::BadParam(_))));
    assert!(matches!(itron::semaphore::BuildError::from_error_code(code(E_RSATR)), Some(itron::semaphore::BuildError::BadParam(_))));
    assert!(itron::semaphore::BuildError::from_error_code(code(E_SYS)).is_none());
    assert!(itron::semaphore::BuildError::from_error_code(code(-1000)).is_none());
    assert!(matches!(itron::semaphore::DeleteError::from_error_code(code(E_CTX)), Some(itron::semaphore::DeleteError::BadContext(_))));
    assert!(matches!(itron::semaphore::DeleteError::from_error_code(code(E_ID)), Some(itron::semaphore::DeleteError::BadId(_))));
    assert!(matches!(itron::semaphore::DeleteError::from_error_code(code(E_NOEXS)), Some(itron::semaphore::DeleteError::BadId(_))));
    assert!(matches!(itron::semaphore::DeleteError::from_error_code(code(E_OBJ)), Some(itron::semaphore::DeleteError::BadState(_))));
    assert!(itron::semaphore::DeleteError::from_error_code(code(E_SYS)).is_none());
    assert!(itron::semaphore::DeleteError::from_error_code(code(-1000)).is_none());
}

#[test]
fn dataqueue_error_kinds_classify_documented_codes() {
    assert!(matches!(itron::dataqueue::SendError::from_error_code(code(E_CTX)), Some(itron::dataqueue::SendError::BadContext(_))));
    assert!(matches!(itron::dataqueue::SendError::from_error_code(code(E_NOSPT)), Some(itron::dataqueue::SendError::NotSupported(_))));
    assert!(matches!(itron::dataqueue::SendError::from_error_code(code(E_ID)), Some(itron::dataqueue::SendError::BadId(_))));
    assert!(matches!(itron::dataqueue::SendError::from_error_code(code(E_NOEXS)), Some(itron::dataqueue::SendError::BadId(_))));
    assert!(matches!(itron::dataqueue::SendError::from_error_code(code(E_RLWAI)), Some(itron::dataqueue::SendError::Released(_))));
    assert!(matches!(itron::dataqueue::SendError::from_error_code(code(E_RASTER)), Some(itron::dataqueue::SendError::TerminateRequest(_))));
    assert!(matches!(itron::dataqueue::SendError::from_error_code(code(E_DLT)), Some(itron::dataqueue::SendError::Deleted(_))));
    assert!(itron::dataqueue::SendError::from_error_code(code(E_SYS)).is_none());
    assert!(itron::dataqueue::SendError::from_error_code(code(-1000)).is_none());
    assert!(matches!(itron::dataqueue::SendTimeoutError::from_error_code(code(E_CTX)), Some(itron::dataqueue::SendTimeoutError::BadContext(_))));
    assert!(matches!(itron::dataqueue::SendTimeoutError::from_error_code(code(E_NOSPT)), Some(itron::dataqueue::SendTimeoutError::NotSupported(_))));
    assert!(matches!(itron::dataqueue::SendTimeoutError::from_error_code(code(E_ID)), Some(itron::dataqueue::SendTimeoutError::BadId(_))));
    assert!(matches!(itron::dataqueue::SendTimeoutError::from_error_code(code(E_NOEXS)), Some(itron::dataqueue::SendTimeoutError::BadId(_))));
    assert!(matches!(itron::dataqueue::SendTimeoutError::from_error_code(code(E_TMOUT)), Some(itron::dataqueue::SendTimeoutError::Timeout(_))));
    assert!(matches!(itron::dataqueue::SendTimeoutError::from_error_code(code(E_RLWAI)), Some(itron::dataqueue::SendTimeoutError::Released(_))));
    assert!(matches!(itron::dataqueue::SendTimeoutError::from_error_code(code(E_RASTER)), Some(itron::dataqueue::SendTimeoutError::TerminateRequest(_))));
    assert!(matches!(itron::dataqueue::SendTimeoutError::from_error_code(code(E_DLT)), Some(itron::dataqueue::SendTimeoutError::Deleted(_))));
    assert!(itron::dataqueue::SendTimeoutError::from_error_code(code(E_SYS)).is_none());
    assert!(itron::dataqueue::SendTimeoutError::from_error_code(code(-1000)).is_none());
    assert!(matches!(itron::dataqueue::TrySendError::from_error_code(code(E_CTX)), Some(itron::dataqueue::TrySendError::BadContext(_))));
    assert!(matches!(itron::dataqueue::TrySendError::from_error_code(code(E_ID)), Some(itron::dataqueue::TrySendError::BadId(_))));
    assert!(matches!(itron::dataqueue::TrySendError::from_error_code(code(E_NOEXS)), Some(itron::dataqueue::TrySendError::BadId(_))));
    assert!(matches!(itron::dataqueue::TrySendError::from_error_code(code(E_TMOUT)), Some(itron::dataqueue::TrySendError::Timeout(_))));
    assert!(itron::dataqueue::TrySendError::from_error_code(code(E_SYS)).is_none());
    assert!(itron::dataqueue::TrySendError::from_error_code(code(-1000)).is_none());
    assert!(matches!(itron::dataqueue::SendForcedError::from_error_code(code(E_CTX)), Some(itron::dataqueue::SendForcedError::BadContext(_))));
    assert!(matches!(itron::dataqueue::SendForcedError::from_error_code(code(E_ID)), Some(itron::dataqueue::SendForcedError::BadId(_))));
    assert!(matches!(itron::dataqueue::SendForcedError::from_error_code(code(E_NOEXS)), Some(itron::dataqueue::SendForcedError::BadId(_))));
    assert!(matches!(itron::dataqueue::SendForcedError::from_error_code(code(E_ILUSE)), Some(itron::dataqueue::SendForcedError::ZeroSized(_))));
    assert!(itron::dataqueue::SendForcedError::from_error_code(code(E_SYS)).is_none());
    assert!(itron::dataqueue::SendForcedError::from_error_code(code(-1000)).is_none());
    assert!(matches!(itron::dataqueue::RecvError::from_error_code(code(E_CTX)), Some(itron::dataqueue::RecvError::BadContext(_))));
    assert!(matches!(itron::dataqueue::RecvError::from_error_code(code(E_NOSPT)), Some(itron::dataqueue::RecvError::NotSupported(_))));
    assert!(matches!(itron::dataqueue::RecvError::from_error_code(code(E_ID)), Some(itron::dataqueue::RecvError::BadId(_))));
    assert!(matches!(itron::dataqueue::RecvError::from_error_code(code(E_NOEXS)), Some(itron::dataqueue::RecvError::BadId(_))));
    assert!(matches!(itron::dataqueue::RecvError::from_error_code(code(E_RLWAI)), Some(itron::dataqueue::RecvError::Released(_))));
    assert!(matches!(itron::dataqueue::RecvError::from_error_code(code(E_RASTER)), Some(itron::dataqueue::RecvError::TerminateRequest(_))));
    assert!(matches!(itron::dataqueue::RecvError::from_error_code(code(E_DLT)), Some(itron::dataqueue::RecvError::Deleted(_))));
    assert!(itron::dataqueue::RecvError::from_error_code(code(E_SYS)).is_none());
    assert!(itron::dataqueue::RecvError::from_error_code(code(-1000)).is_none());
    assert!(matches!(itron::dataqueue::RecvTimeoutError::from_error_code(code(E_CTX)), Some(itron::dataqueue::RecvTimeoutError::BadContext(_))));
    assert!(matches!(itron::dataqueue::RecvTimeoutError::from_error_code(code(E_NOSPT)), Some(itron::dataqueue::RecvTimeoutError::NotSupported(_))));
    assert!(matches!(itron::dataqueue::RecvTimeoutError::from_error_code(code(E_ID)), Some(itron::dataqueue::RecvTimeoutError::BadId(_))));
    assert!(matches!(itron::dataqueue::RecvTimeoutError::from_error_code(code(E_NOEXS)), Some(itron::dataqueue::RecvTimeoutError::BadId(_))));
    assert!(matches!(itron::dataqueue::RecvTimeoutError::from_error_code(code(E_TMOUT)), Some(itron::dataqueue::RecvTimeoutError::Timeout(_))));
    assert!(matches!(itron::dataqueue::RecvTimeoutError::from_error_code(code(E_RLWAI)), Some(itron::dataqueue::RecvTimeoutError::Released(_))));
    assert!(matches!(itron::dataqueue::RecvTimeoutError::from_error_code(code(E_RASTER)), Some(itron::dataqueue::RecvTimeoutError::TerminateRequest(_))));
    assert!(matches!(itron::dataqueue::RecvTimeoutError::from_error_code(code(E_DLT)), Some(itron::dataqueue::RecvTimeoutError::Deleted(_))));
    assert!(itron::dataqueue::RecvTimeoutError::from_error_code(code(E_SYS)).is_none());
    assert!(itron::dataqueue::RecvTimeoutError::from_error_code(code(-1000)).is_none());
    assert!(matches!(itron::dataqueue::TryRecvError::from_error_code(code(E_CTX)), Some(itron::dataqueue::TryRecvError::BadContext(_))));
    assert!(matches!(itron::dataqueue::TryRecvError::from_error_code(code(E_ID)), Some(itron::dataqueue::TryRecvError::BadId(_))));
    assert!(matches!(itron::dataqueue::TryRecvError::from_error_code(code(E_NOEXS)), Some(itron::dataqueue::TryRecvError::BadId(_))));
    assert!(matches!(itron::dataqueue::TryRecvError::from_error_code(code(E_TMOUT)), Some(itron::dataqueue::TryRecvError::Timeout(_))));
    assert!(itron::dataqueue::TryRecvError::from_error_code(code(E_SYS)).is_none());
    assert!(itron::dataqueue::TryRecvError::from_error_code(code(-1000)).is_none());
    assert!(matches!(itron::dataqueue::InitializeError::from_error_code(code(E_CTX)), Some(itron::dataqueue::InitializeError::BadContext(_))));
    assert!(matches!(itron::dataqueue::InitializeError::from_error_code(code(E_ID)), Some(itron::dataqueue::InitializeError::BadId(_))));
    assert!(matches!(itron::dataqueue::InitializeError::from_error_code(code(E_NOEXS)), Some(itron::dataqueue::InitializeError::BadId(_))));
    assert!(itron::dataqueue::InitializeError::from_error_code(code(E_SYS)).is_none());
    assert!(itron::dataqueue::InitializeError::from_error_code(code(-1000)).is_none());
    assert!(matches!(itron::dataqueue::InfoError::from_error_code(code(E_CTX)), Some(itron::dataqueue::InfoError::BadContext(_))));
    assert!(matches!(itron::dataqueue::InfoError::from_error_code(code(E_ID)), Some(itron::dataqueue::InfoError::BadId(_))));
    assert!(matches!(itron::dataqueue::InfoError::from_error_code(code(E_NOEXS)), Some(itron::dataqueue::InfoError::BadId(_))));
    assert!(itron::dataqueue::InfoError::from_error_code(code(E_SYS)).is_none());
    assert!(itron::dataqueue::InfoError::from_error_code(code(-1000)).is_none());
    assert!(matches!(itron::dataqueue::BuildError::from_error_code(code(E_CTX)), Some(itron::dataqueue::BuildError::BadContext(_))));
    assert!(matches!(itron::dataqueue::BuildError::from_error_code(code(E_NOID)), Some(itron::dataqueue::BuildError::OutOfMemory(_))));
    assert!(matches!(itron::dataqueue::BuildError::from_error_code(code(E_NOMEM)), Some(itron::dataqueue::BuildError::OutOfMemory(_))));
    assert!(matches!(itron::dataqueue::BuildError::from_error_code(code(E_PAR)), Some(itron::dataqueue::BuildError::BadParam(_))));
    assert!(matches!(itron::dataqueue::BuildError::from_error_code(code(E_RSATR)), Some(itron::dataqueue::BuildError::BadParam(_))));
    assert!(itron::dataqueue::BuildError::from_error_code(code(E_SYS)).is_none());
    assert!(itron::dataqueue::BuildError::from_error_code(code(-1000)).is_none());
    assert!(matches!(itron::dataqueue::DeleteError::from_error_code(code(E_CTX)), Some(itron::dataqueue::DeleteError::BadContext(_))));
    assert!(matches!(itron::dataqueue::DeleteError::from_error_code(code(E_ID)), Some(itron::dataqueue::DeleteError::BadId(_))));
    assert!(matches!(itron::dataqueue::DeleteError::from_error_code(code(E_NOEXS)), Some(itron::dataqueue::DeleteError::BadId(_))));
    assert!(matches!(itron::dataqueue::DeleteError::from_error_code(code(E_OBJ)), Some(itron::dataqueue::DeleteError::BadState(_))));
    assert!(itron::dataqueue::DeleteError::from_error_code(code(E_SYS)).is_none());
    assert!(itron::dataqueue::DeleteError::from_error_code(code(-1000)).is_none());
}

#[test]
fn mutex_error_kinds_classify_documented_codes() {
    assert!(matches!(itron::mutex::LockError::from_error_code(code(E_CTX)), Some(itron::mutex::LockError::BadContext(_))));
    assert!(matches!(itron::mutex::LockError::from_error_code(code(E_NOSPT)), Some(itron::mutex::LockError::NotSupported(_))));
    assert!(matches!(itron::mutex::LockError::from_error_code(code(E_ID)), Some(itron::mutex::LockError::BadId(_))));
    assert!(matches!(itron::mutex::LockError::from_error_code(code(E_NOEXS)), Some(itron::mutex::LockError::BadId(_))));
    assert!(matches!(itron::mutex::LockError::from_error_code(code(E_RLWAI)), Some(itron::mutex::LockError::Released(_))));
    assert!(matches!(itron::mutex::LockError::from_error_code(code(E_RASTER)), Some(itron::mutex::LockError::TerminateRequest(_))));
    assert!(matches!(itron::mutex::LockError::from_error_code(code(E_DLT)), Some(itron::mutex::LockError::Deleted(_))));
    assert!(matches!(itron::mutex::LockError::from_error_code(code(E_ILUSE)), Some(itron::mutex::LockError::BadParam(_))));
    assert!(matches!(itron::mutex::LockError::from_error_code(code(E_OBJ)), Some(itron::mutex::LockError::Deadlock(_))));
    assert!(itron::mutex::LockError::from_error_code(code(E_SYS)).is_none());
    assert!(itron::mutex::LockError::from_error_code(code(-1000)).is_none());
    assert!(matches!(itron::mutex::LockTimeoutError::from_error_code(code(E_CTX)), Some(itron::mutex::LockTimeoutError::BadContext(_))));
    assert!(matches!(itron::mutex::LockTimeoutError::from_error_code(code(E_NOSPT)), Some(itron::mutex::LockTimeoutError::NotSupported(_))));
    assert!(matches!(itron::mutex::LockTimeoutError::from_error_code(code(E_ID)), Some(itron::mutex::LockTimeoutError::BadId(_))));
    assert!(matches!(itron::mutex::LockTimeoutError::from_error_code(code(E_NOEXS)), Some(itron::mutex::LockTimeoutError::BadId(_))));
    assert!(matches!(itron::mutex::LockTimeoutError::from_error_code(code(E_TMOUT)), Some(itron::mutex::LockTimeoutError::Timeout(_))));
    assert!(matches!(itron::mutex::LockTimeoutError::from_error_code(code(E_RLWAI)), Some(itron::mutex::LockTimeoutError::Released(_))));
    assert!(matches!(itron::mutex::LockTimeoutError::from_error_code(code(E_RASTER)), Some(itron::mutex::LockTimeoutError::TerminateRequest(_))));
    assert!(matches!(itron::mutex::LockTimeoutError::from_error_code(code(E_DLT)), Some(itron::mutex::LockTimeoutError::Deleted(_))));
    assert!(matches!(itron::mutex::LockTimeoutError::from_error_code(code(E_ILUSE)), Some(itron::mutex::LockTimeoutError::BadParam(_))));
    assert!(matches!(itron::mutex::LockTimeoutError::from_error_code(code(E_OBJ)), Some(itron::mutex::LockTimeoutError::Deadlock(_))));
    assert!(itron::mutex::LockTimeoutError::from_error_code(code(E_SYS)).is_none());
    assert!(itron::mutex::LockTimeoutError::from_error_code(code(-1000)).is_none());
    assert!(matches!(itron::mutex::TryLockError::from_error_code(code(E_CTX)), Some(itron::mutex::TryLockError::BadContext(_))));
    assert!(matches!(itron::mutex::TryLockError::from_error_code(code(E_ID)), Some(itron::mutex::TryLockError::BadId(_))));
    assert!(matches!(itron::mutex::TryLockError::from_error_code(code(E_NOEXS)), Some(itron::mutex::TryLockError::BadId(_))));
    assert!(matches!(itron::mutex::TryLockError::from_error_code(code(E_ILUSE)), Some(itron::mutex::TryLockError::BadParam(_))));
    assert!(matches!(itron::mutex::TryLockError::from_error_code(code(E_OBJ)), Some(itron::mutex::TryLockError::Deadlock(_))));
    assert!(itron::mutex::TryLockError::from_error_code(code(E_SYS)).is_none());
    assert!(itron::mutex::TryLockError::from_error_code(code(-1000)).is_none());
    assert!(matches!(itron::mutex::UnlockError::from_error_code(code(E_CTX)), Some(itron::mutex::UnlockError::BadContext(_))));
    assert!(matches!(itron::mutex::UnlockError::from_error_code(code(E_ID)), Some(itron::mutex::UnlockError::BadId(_))));
    assert!(matches!(itron::mutex::UnlockError::from_error_code(code(E_NOEXS)), Some(itron::mutex::UnlockError::BadId(_))));
    assert!(matches!(itron::mutex::UnlockError::from_error_code(code(E_OBJ)), Some(itron::mutex::UnlockError::BadSequence(_))));
    assert!(itron::mutex::UnlockError::from_error_code(code(E_SYS)).is_none());
    assert!(itron::mutex::UnlockError::from_error_code(code(-1000)).is_none());
    assert!(matches!(itron::mutex::InitializeError::from_error_code(code(E_CTX)), Some(itron::mutex::InitializeError::BadContext(_))));
    assert!(matches!(itron::mutex::InitializeError::from_error_code(code(E_ID)), Some(itron::mutex::InitializeError::BadId(_))));
    assert!(matches!(itron::mutex::InitializeError::from_error_code(code(E_NOEXS)), Some(itron::mutex::InitializeError::BadId(_))));
    assert!(itron::mutex::InitializeError::from_error_code(code(E_SYS)).is_none());
    assert!(itron::mutex::InitializeError::from_error_code(code(-1000)).is_none());
    assert!(matches!(itron::mutex::InfoError::from_error_code(code(E_CTX)), Some(itron::mutex::InfoError::BadContext(_))));
    assert!(matches!(itron::mutex::InfoError::from_error_code(code(E_ID)), Some(itron::mutex::InfoError::BadId(_))));
    assert!(matches!(itron::mutex::InfoError::from_error_code(code(E_NOEXS)), Some(itron::mutex::InfoError::BadId(_))));
    assert!(itron::mutex::InfoError::from_error_code(code(E_SYS)).is_none());
    assert!(itron::mutex::InfoError::from_error_code(code(-1000)).is_none());
    assert!(matches!(itron::mutex::BuildError::from_error_code(code(E_CTX)), Some(itron::mutex::BuildError::BadContext(_))));
    assert!(matches!(itron::mutex::BuildError::from_error_code(code(E_NOID)), Some(itron::mutex::BuildError::OutOfMemory(_))));
    assert!(matches!(itron::mutex::BuildError::from_error_code(code(E_PAR)), Some(itron::mutex::BuildError::BadParam(_))));
    assert!(matches!(itron::mutex::BuildError::from_error_code(code(E_RSATR)), Some(itron::mutex::BuildError::BadParam(_))));
    assert!(itron::mutex::BuildError::from_error_code(code(E_SYS)).is_none());
    assert!(itron::mutex::BuildError::from_error_code(code(-1000)).is_none());
    assert!(matches!(itron::mutex::DeleteError::from_error_code(code(E_CTX)), Some(itron::mutex::DeleteError::BadContext(_))));
    assert!(matches!(itron::mutex::DeleteError::from_error_code(code(E_ID)), Some(itron::mutex::DeleteError::BadId(_))));
    assert!(matches!(itron::mutex::DeleteError::from_error_code(code(E_NOEXS)), Some(itron::mutex::DeleteError::BadId(_))));
    assert!(matches!(itron::mutex::DeleteError::from_error_code(code(E_OBJ)), Some(itron::mutex::DeleteError::BadState(_))));
    assert!(itron::mutex::DeleteError::from_error_code(code(E_SYS)).is_none());
    assert!(itron::mutex::DeleteError::from_error_code(code(-1000)).is_none());
}

#[test]
fn memorypool_error_kinds_classify_documented_codes() {
    assert!(matches!(itron::memorypool::GetError::from_error_code(code(E_CTX)), Some(itron::memorypool::GetError::BadContext(_))));
    assert!(matches!(itron::memorypool::GetError::from_error_code(code(E_NOSPT)), Some(itron::memorypool::GetError::NotSupported(_))));
    assert!(matches!(itron::memorypool::GetError::from_error_code(code(E_ID)), Some(itron::memorypool::GetError::BadId(_))));
    assert!(matches!(itron::memorypool::GetError::from_error_code(code(E_NOEXS)), Some(itron::memorypool::GetError::BadId(_))));
    assert!(matches!(itron::memorypool::GetError::from_error_code(code(E_RLWAI)), Some(itron::memorypool::GetError::Released(_))));
    assert!(matches!(itron::memorypool::GetError::from_error_code(code(E_RASTER)), Some(itron::memorypool::GetError::TerminateRequest(_))));
    assert!(matches!(itron::memorypool::GetError::from_error_code(code(E_DLT)), Some(itron::memorypool::GetError::Deleted(_))));
    assert!(itron::memorypool::GetError::from_error_code(code(E_SYS)).is_none());
    assert!(itron::memorypool::GetError::from_error_code(code(-1000)).is_none());
    assert!(matches!(itron::memorypool::GetTimeoutError::from_error_code(code(E_CTX)), Some(itron::memorypool::GetTimeoutError::BadContext(_))));
    assert!(matches!(itron::memorypool::GetTimeoutError::from_error_code(code(E_NOSPT)), Some(itron::memorypool::GetTimeoutError::NotSupported(_))));
    assert!(matches!(itron::memorypool::GetTimeoutError::from_error_code(code(E_ID)), Some(itron::memorypool::GetTimeoutError::BadId(_))));
    assert!(matches!(itron::memorypool::GetTimeoutError::from_error_code(code(E_NOEXS)), Some(itron::memorypool::GetTimeoutError::BadId(_))));
    assert!(matches!(itron::memorypool::GetTimeoutError::from_error_code(code(E_TMOUT)), Some(itron::memorypool::GetTimeoutError::Timeout(_))));
    assert!(matches!(itron::memorypool::GetTimeoutError::from_error_code(code(E_RLWAI)), Some(itron::memorypool::GetTimeoutError::Released(_))));
    assert!(matches!(itron::memorypool::GetTimeoutError::from_error_code(code(E_RASTER)), Some(itron::memorypool::GetTimeoutError::TerminateRequest(_))));
    assert!(matches!(itron::memorypool::GetTimeoutError::from_error_code(code(E_DLT)), Some(itron::memorypool::GetTimeoutError::Deleted(_))));
    assert!(itron::memorypool::GetTimeoutError::from_error_code(code(E_SYS)).is_none());
    assert!(itron::memorypool::GetTimeoutError::from_error_code(code(-1000)).is_none());
    assert!(matches!(itron::memorypool::TryGetError::from_error_code(code(E_CTX)), Some(itron::memorypool::TryGetError::BadContext(_))));
    assert!(matches!(itron::memorypool::TryGetError::from_error_code(code(E_ID)), Some(itron::memorypool::TryGetError::BadId(_))));
    assert!(matches!(itron::memorypool::TryGetError::from_error_code(code(E_NOEXS)), Some(itron::memorypool::TryGetError::BadId(_))));
    assert!(matches!(itron::memorypool::TryGetError::from_error_code(code(E_TMOUT)), Some(itron::memorypool::TryGetError::Timeout(_))));
    assert!(itron::memorypool::TryGetError::from_error_code(code(E_SYS)).is_none());
    assert!(itron::memorypool::TryGetError::from_error_code(code(-1000)).is_none());
    assert!(matches!(itron::memorypool::ReleaseError::from_error_code(code(E_CTX)), Some(itron::memorypool::ReleaseError::BadContext(_))));
    assert!(matches!(itron::memorypool::ReleaseError::from_error_code(code(E_ID)), Some(itron::memorypool::ReleaseError::BadId(_))));
    assert!(matches!(itron::memorypool::ReleaseError::from_error_code(code(E_NOEXS)), Some(itron::memorypool::ReleaseError::BadId(_))));
    assert!(matches!(itron::memorypool::ReleaseError::from_error_code(code(E_PAR)), Some(itron::memorypool::ReleaseError::BadParam(_))));
    assert!(itron::memorypool::ReleaseError::from_error_code(code(E_SYS)).is_none());
    assert!(itron::memorypool::ReleaseError::from_error_code(code(-1000)).is_none());
    assert!(matches!(itron::memorypool::InitializeError::from_error_code(code(E_CTX)), Some(itron::memorypool::InitializeError::BadContext(_))));
    assert!(matches!(itron::memorypool::InitializeError::from_error_code(code(E_ID)), Some(itron::memorypool::InitializeError::BadId(_))));
    assert!(matches!(itron::memorypool::InitializeError::from_error_code(code(E_NOEXS)), Some(itron::memorypool::InitializeError::BadId(_))));
    assert!(itron::memorypool::InitializeError::from_error_code(code(E_SYS)).is_none());
    assert!(itron::memorypool::InitializeError::from_error_code(code(-1000)).is_none());
    assert!(matches!(itron::memorypool::InfoError::from_error_code(code(E_CTX)), Some(itron::memorypool::InfoError::BadContext(_))));
    assert!(matches!(itron::memorypool::InfoError::from_error_code(code(E_ID)), Some(itron::memorypool::InfoError::BadId(_))));
    assert!(matches!(itron::memorypool::InfoError::from_error_code(code(E_NOEXS)), Some(itron::memorypool::InfoError::BadId(_))));
    assert!(itron::memorypool::InfoError::from_error_code(code(E_SYS)).is_none());
    assert!(itron::memorypool::InfoError::from_error_code(code(-1000)).is_none());
    assert!(matches!(itron::memorypool::BuildError::from_error_code(code(E_CTX)), Some(itron::memorypool::BuildError::BadContext(_))));
    assert!(matches!(itron::memorypool::BuildError::from_error_code(code(E_NOID)), Some(itron::memorypool::BuildError::OutOfMemory(_))));
    assert!(matches!(itron::memorypool::BuildError::from_error_code(code(E_NOMEM)), Some(itron::memorypool::BuildError::OutOfMemory(_))));
    assert!(matches!(itron::memorypool::BuildError::from_error_code(code(E_PAR)), Some(itron::memorypool::BuildError::BadParam(_))));
    assert!(matches!(itron::memorypool::BuildError::from_error_code(code(E_RSATR)), Some(itron::memorypool::BuildError::BadParam(_))));
    assert!(itron::memorypool::BuildError::from_error_code(code(E_SYS)).is_none());
    assert!(itron::memorypool::BuildError::from_error_code(code(-1000)).is_none());
    assert!(matches!(itron::memorypool::DeleteError::from_error_code(code(E_CTX)), Some(itron::memorypool::DeleteError::BadContext(_))));
    assert!(matches!(itron::memorypool::DeleteError::from_error_code(code(E_ID)), Some(itron::memorypool::DeleteError::BadId(_))));
    assert!(matches!(itron::memorypool::DeleteError::from_error_code(code(E_NOEXS)), Some(itron::memorypool::DeleteError::BadId(_))));
    assert!(matches!(itron::memorypool::DeleteError::from_error_code(code(E_OBJ)), Some(itron::memorypool::DeleteError::BadState(_))));
    assert!(itron::memorypool::DeleteError::from_error_code(code(E_SYS)).is_none());
    assert!(itron::memorypool::DeleteError::from_error_code(code(-1000)).is_none());
}

#[test]
fn messagebuffer_error_kinds_classify_documented_codes() {
    assert!(matches!(itron::messagebuffer::SendError::from_error_code(code(E_CTX)), Some(itron::messagebuffer::SendError::BadContext(_))));
    assert!(matches!(itron::messagebuffer::SendError::from_error_code(code(E_NOSPT)), Some(itron::messagebuffer::SendError::NotSupported(_))));
    assert!(matches!(itron::messagebuffer::SendError::from_error_code(code(E_ID)), Some(itron::messagebuffer::SendError::BadId(_))));
    assert!(matches!(itron::messagebuffer::SendError::from_error_code(code(E_NOEXS)), Some(itron::messagebuffer::SendError::BadId(_))));
    assert!(matches!(itron::messagebuffer::SendError::from_error_code(code(E_PAR)), Some(itron::messagebuffer::SendError::BadParam(_))));
    assert!(matches!(itron::messagebuffer::SendError::from_error_code(code(E_RLWAI)), Some(itron::messagebuffer::SendError::Released(_))));
    assert!(matches!(itron::messagebuffer::SendError::from_error_code(code(E_RASTER)), Some(itron::messagebuffer::SendError::TerminateRequest(_))));
    assert!(matches!(itron::messagebuffer::SendError::from_error_code(code(E_DLT)), Some(itron::messagebuffer::SendError::Deleted(_))));
    assert!(itron::messagebuffer::SendError::from_error_code(code(E_SYS)).is_none());
    assert!(itron::messagebuffer::SendError::from_error_code(code(-1000)).is_none());
    assert!(matches!(itron::messagebuffer::SendTimeoutError::from_error_code(code(E_CTX)), Some(itron::messagebuffer::SendTimeoutError::BadContext(_))));
    assert!(matches!(itron::messagebuffer::SendTimeoutError::from_error_code(code(E_NOSPT)), Some(itron::messagebuffer::SendTimeoutError::NotSupported(_))));
    assert!(matches!(itron::messagebuffer::SendTimeoutError::from_error_code(code(E_ID)), Some(itron::messagebuffer::SendTimeoutError::BadId(_))));
    assert!(matches!(itron::messagebuffer::SendTimeoutError::from_error_code(code(E_NOEXS)), Some(itron::messagebuffer::SendTimeoutError::BadId(_))));
    assert!(matches!(itron::messagebuffer::SendTimeoutError::from_error_code(code(E_PAR)), Some(itron::messagebuffer::SendTimeoutError::BadParam(_))));
    assert!(matches!(itron::messagebuffer::SendTimeoutError::from_error_code(code(E_TMOUT)), Some(itron::messagebuffer::SendTimeoutError::Timeout(_))));
    assert!(matches!(itron::messagebuffer::SendTimeoutError::from_error_code(code(E_RLWAI)), Some(itron::messagebuffer::SendTimeoutError::Released(_))));
    assert!(matches!(itron::messagebuffer::SendTimeoutError::from_error_code(code(E_RASTER)), Some(itron::messagebuffer::SendTimeoutError::TerminateRequest(_))));
    assert!(matches!(itron::messagebuffer::SendTimeoutError::from_error_code(code(E_DLT)), Some(itron::messagebuffer::SendTimeoutError::Deleted(_))));
    assert!(itron::messagebuffer::SendTimeoutError::from_error_code(code(E_SYS)).is_none());
    assert!(itron::messagebuffer::SendTimeoutError::from_error_code(code(-1000)).is_none());
    assert!(matches!(itron::messagebuffer::TrySendError::from_error_code(code(E_CTX)), Some(itron::messagebuffer::TrySendError::BadContext(_))));
    assert!(matches!(itron::messagebuffer::TrySendError::from_error_code(code(E_ID)), Some(itron::messagebuffer::TrySendError::BadId(_))));
    assert!(matches!(itron::messagebuffer::TrySendError::from_error_code(code(E_NOEXS)), Some(itron::messagebuffer::TrySendError::BadId(_))));
    assert!(matches!(itron::messagebuffer::TrySendError::from_error_code(code(E_PAR)), Some(itron::messagebuffer::TrySendError::BadParam(_))));
    assert!(matches!(itron::messagebuffer::TrySendError::from_error_code(code(E_TMOUT)), Some(itron::messagebuffer::TrySendError::Timeout(_))));
    assert!(itron::messagebuffer::TrySendError::from_error_code(code(E_SYS)).is_none());
    assert!(itron::messagebuffer::TrySendError::from_error_code(code(-1000)).is_none());
    assert!(matches!(itron::messagebuffer::RecvError::from_error_code(code(E_CTX)), Some(itron::messagebuffer::RecvError::BadContext(_))));
    assert!(matches!(itron::messagebuffer::RecvError::from_error_code(code(E_NOSPT)), Some(itron::messagebuffer::RecvError::NotSupported(_))));
    assert!(matches!(itron::messagebuffer::RecvError::from_error_code(code(E_ID)), Some(itron::messagebuffer::RecvError::BadId(_))));
    assert!(matches!(itron::messagebuffer::RecvError::from_error_code(code(E_NOEXS)), Some(itron::messagebuffer::RecvError::BadId(_))));
    assert!(matches!(itron::messagebuffer::RecvError::from_error_code(code(E_RLWAI)), Some(itron::messagebuffer::RecvError::Released(_))));
    assert!(matches!(itron::messagebuffer::RecvError::from_error_code(code(E_RASTER)), Some(itron::messagebuffer::RecvError::TerminateRequest(_))));
    assert!(matches!(itron::messagebuffer::RecvError::from_error_code(code(E_DLT)), Some(itron::messagebuffer::RecvError::Deleted(_))));
    assert!(itron::messagebuffer::RecvError::from_error_code(code(E_SYS)).is_none());
    assert!(itron::messagebuffer::RecvError::from_error_code(code(-1000)).is_none());
    assert!(matches!(itron::messagebuffer::RecvTimeoutError::from_error_code(code(E_CTX)), Some(itron::messagebuffer::RecvTimeoutError::BadContext(_))));
    assert!(matches!(itron::messagebuffer::RecvTimeoutError::from_error_code(code(E_NOSPT)), Some(itron::messagebuffer::RecvTimeoutError::NotSupported(_))));
    assert!(matches!(itron::messagebuffer::RecvTimeoutError::from_error_code(code(E_ID)), Some(itron::messagebuffer::RecvTimeoutError::BadId(_))));
    assert!(matches!(itron::messagebuffer::RecvTimeoutError::from_error_code(code(E_NOEXS)), Some(itron::messagebuffer::RecvTimeoutError::BadId(_))));
    assert!(matches!(itron::messagebuffer::RecvTimeoutError::from_error_code(code(E_TMOUT)), Some(itron::messagebuffer::RecvTimeoutError::Timeout(_))));
    assert!(matches!(itron::messagebuffer::RecvTimeoutError::from_error_code(code(E_RLWAI)), Some(itron::messagebuffer::RecvTimeoutError::Released(_))));
    assert!(matches!(itron::messagebuffer::RecvTimeoutError::from_error_code(code(E_RASTER)), Some(itron::messagebuffer::RecvTimeoutError::TerminateRequest(_))));
    assert!(matches!(itron::messagebuffer::RecvTimeoutError::from_error_code(code(E_DLT)), Some(itron::messagebuffer::RecvTimeoutError::Deleted(_))));
    assert!(itron::messagebuffer::RecvTimeoutError::from_error_code(code(E_SYS)).is_none());
    assert!(itron::messagebuffer::RecvTimeoutError::from_error_code(code(-1000)).is_none());
    assert!(matches!(itron::messagebuffer::TryRecvError::from_error_code(code(E_CTX)), Some(itron::messagebuffer::TryRecvError::BadContext(_))));
    assert!(matches!(itron::messagebuffer::TryRecvError::from_error_code(code(E_ID)), Some(itron::messagebuffer::TryRecvError::BadId(_))));
    assert!(matches!(itron::messagebuffer::TryRecvError::from_error_code(code(E_NOEXS)), Some(itron::messagebuffer::TryRecvError::BadId(_))));
    assert!(matches!(itron::messagebuffer::TryRecvError::from_error_code(code(E_TMOUT)), Some(itron::messagebuffer::TryRecvError::Timeout(_))));
    assert!(itron::messagebuffer::TryRecvError::from_error_code(code(E_SYS)).is_none());
    assert!(itron::messagebuffer::TryRecvError::from_error_code(code(-1000)).is_none());
    assert!(matches!(itron::messagebuffer::InitializeError::from_error_code(code(E_CTX)), Some(itron::messagebuffer::InitializeError::BadContext(_))));
    assert!(matches!(itron::messagebuffer::InitializeError::from_error_code(code(E_ID)), Some(itron::messagebuffer::InitializeError::BadId(_))));
    assert!(matches!(itron::messagebuffer::InitializeError::from_error_code(code(E_NOEXS)), Some(itron::messagebuffer::InitializeError::BadId(_))));
    assert!(itron::messagebuffer::InitializeError::from_error_code(code(E_SYS)).is_none());
    assert!(itron::messagebuffer::InitializeError::from_error_code(code(-1000)).is_none());
    assert!(matches!(itron::messagebuffer::InfoError::from_error_code(code(E_CTX)), Some(itron::messagebuffer::InfoError::BadContext(_))));
    assert!(matches!(itron::messagebuffer::InfoError::from_error_code(code(E_ID)), Some(itron::messagebuffer::InfoError::BadId(_))));
    assert!(matches!(itron::messagebuffer::InfoError::from_error_code(code(E_NOEXS)), Some(itron::messagebuffer::InfoError::BadId(_))));
    assert!(itron::messagebuffer::InfoError::from_error_code(code(E_SYS)).is_none());
    assert!(itron::messagebuffer::InfoError::from_error_code(code(-1000)).is_none());
    assert!(matches!(itron::messagebuffer::BuildError::from_error_code(code(E_CTX)), Some(itron::messagebuffer::BuildError::BadContext(_))));
    assert!(matches!(itron::messagebuffer::BuildError::from_error_code(code(E_NOID)), Some(itron::messagebuffer::BuildError::OutOfMemory(_))));
    assert!(matches!(itron::messagebuffer::BuildError::from_error_code(code(E_NOMEM)), Some(itron::messagebuffer::BuildError::OutOfMemory(_))));
    assert!(matches!(itron::messagebuffer::BuildError::from_error_code(code(E_PAR)), Some(itron::messagebuffer::BuildError::BadParam(_))));
    assert!(matches!(itron::messagebuffer::BuildError::from_error_code(code(E_RSATR)), Some(itron::messagebuffer::BuildError::BadParam(_))));
    assert!(itron::messagebuffer::BuildError::from_error_code(code(E_SYS)).is_none());
    assert!(itron::messagebuffer::BuildError::from_error_code(code(-1000)).is_none());
    assert!(matches!(itron::messagebuffer::DeleteError::from_error_code(code(E_CTX)), Some(itron::messagebuffer::DeleteError::BadContext(_))));
    assert!(matches!(itron::messagebuffer::DeleteError::from_error_code(code(E_ID)), Some(itron::messagebuffer::DeleteError::BadId(_))));
    assert!(matches!(itron::messagebuffer::DeleteError::from_error_code(code(E_NOEXS)), Some(itron::messagebuffer::DeleteError::BadId(_))));
    assert!(matches!(itron::messagebuffer::DeleteError::from_error_code(code(E_OBJ)), Some(itron::messagebuffer::DeleteError::BadState(_))));
    assert!(itron::messagebuffer::DeleteError::from_error_code(code(E_SYS)).is_none());
    assert!(itron::messagebuffer::DeleteError::from_error_code(code(-1000)).is_none());
}

#[test]
fn task_error_kinds_classify_documented_codes() {
    assert!(matches!(itron::task::ActivateError::from_error_code(code(E_CTX)), Some(itron::task::ActivateError::BadContext(_))));
    assert!(matches!(itron::task::ActivateError::from_error_code(code(E_ID)), Some(itron::task::ActivateError::BadId(_))));
    assert!(matches!(itron::task::ActivateError::from_error_code(code(E_NOEXS)), Some(itron::task::ActivateError::BadId(_))));
    assert!(matches!(itron::task::ActivateError::from_error_code(code(E_QOVR)), Some(itron::task::ActivateError::QueueOverflow(_))));
    assert!(itron::task::ActivateError::from_error_code(code(E_SYS)).is_none());
    assert!(itron::task::ActivateError::from_error_code(code(-1000)).is_none());
    assert!(matches!(itron::task::CancelActivateAllError::from_error_code(code(E_CTX)), Some(itron::task::CancelActivateAllError::BadContext(_))));
    assert!(matches!(itron::task::CancelActivateAllError::from_error_code(code(E_ID)), Some(itron::task::CancelActivateAllError::BadId(_))));
    assert!(matches!(itron::task::CancelActivateAllError::from_error_code(code(E_NOEXS)), Some(itron::task::CancelActivateAllError::BadId(_))));
    assert!(itron::task::CancelActivateAllError::from_error_code(code(E_SYS)).is_none());
    assert!(itron::task::CancelActivateAllError::from_error_code(code(-1000)).is_none());
    assert!(matches!(itron::task::SetPriorityError::from_error_code(code(E_CTX)), Some(itron::task::SetPriorityError::BadContext(_))));
    assert!(matches!(itron::task::SetPriorityError::from_error_code(code(E_ID)), Some(itron::task::SetPriorityError::BadId(_))));
    assert!(matches!(itron::task::SetPriorityError::from_error_code(code(E_NOEXS)), Some(itron::task::SetPriorityError::BadId(_))));
    assert!(matches!(itron::task::SetPriorityError::from_error_code(code(E_OBJ)), Some(itron::task::SetPriorityError::BadState(_))));
    assert!(matches!(itron::task::SetPriorityError::from_error_code(code(E_PAR)), Some(itron::task::SetPriorityError::BadParam(_))));
    assert!(matches!(itron::task::SetPriorityError::from_error_code(code(E_NOSPT)), Some(itron::task::SetPriorityError::BadParam(_))));
    assert!(matches!(itron::task::SetPriorityError::from_error_code(code(E_ILUSE)), Some(itron::task::SetPriorityError::BadParam(_))));
    assert!(itron::task::SetPriorityError::from_error_code(code(E_SYS)).is_none());
    assert!(itron::task::SetPriorityError::from_error_code(code(-1000)).is_none());
    assert!(matches!(itron::task::PriorityError::from_error_code(code(E_CTX)), Some(itron::task::PriorityError::BadContext(_))));
    assert!(matches!(itron::task::PriorityError::from_error_code(code(E_ID)), Some(itron::task::PriorityError::BadId(_))));
    assert!(matches!(itron::task::PriorityError::from_error_code(code(E_NOEXS)), Some(itron::task::PriorityError::BadId(_))));
    assert!(matches!(itron::task::PriorityError::from_error_code(code(E_OBJ)), Some(itron::task::PriorityError::BadState(_))));
    assert!(itron::task::PriorityError::from_error_code(code(E_SYS)).is_none());
    assert!(itron::task::PriorityError::from_error_code(code(-1000)).is_none());
    assert!(matches!(itron::task::DeleteError::from_error_code(code(E_CTX)), Some(itron::task::DeleteError::BadContext(_))));
    assert!(matches!(itron::task::DeleteError::from_error_code(code(E_ID)), Some(itron::task::DeleteError::BadId(_))));
    assert!(matches!(itron::task::DeleteError::from_error_code(code(E_NOEXS)), Some(itron::task::DeleteError::BadId(_))));
    assert!(matches!(itron::task::DeleteError::from_error_code(code(E_OBJ)), Some(itron::task::DeleteError::BadState(_))));
    assert!(itron::task::DeleteError::from_error_code(code(E_SYS)).is_none());
    assert!(itron::task::DeleteError::from_error_code(code(-1000)).is_none());
    assert!(matches!(itron::task::StateError::from_error_code(code(E_CTX)), Some(itron::task::StateError::BadContext(_))));
    assert!(matches!(itron::task::StateError::from_error_code(code(E_ID)), Some(itron::task::StateError::BadId(_))));
    assert!(matches!(itron::task::StateError::from_error_code(code(E_NOEXS)), Some(itron::task::StateError::BadId(_))));
    assert!(itron::task::StateError::from_error_code(code(E_SYS)).is_none());
    assert!(itron::task::StateError::from_error_code(code(-1000)).is_none());
    assert!(matches!(itron::task::InfoError::from_error_code(code(E_CTX)), Some(itron::task::InfoError::BadContext(_))));
    assert!(matches!(itron::task::InfoError::from_error_code(code(E_ID)), Some(itron::task::InfoError::BadId(_))));
    assert!(matches!(itron::task::InfoError::from_error_code(code(E_NOEXS)), Some(itron::task::InfoError::BadId(_))));
    assert!(itron::task::InfoError::from_error_code(code(E_SYS)).is_none());
    assert!(itron::task::InfoError::from_error_code(code(-1000)).is_none());
    assert!(matches!(itron::task::WakeError::from_error_code(code(E_CTX)), Some(itron::task::WakeError::BadContext(_))));
    assert!(matches!(itron::task::WakeError::from_error_code(code(E_ID)), Some(itron::task::WakeError::BadId(_))));
    assert!(matches!(itron::task::WakeError::from_error_code(code(E_NOEXS)), Some(itron::task::WakeError::BadId(_))));
    assert!(matches!(itron::task::WakeError::from_error_code(code(E_NOSPT)), Some(itron::task::WakeError::NotSupported(_))));
    assert!(matches!(itron::task::WakeError::from_error_code(code(E_OBJ)), Some(itron::task::WakeError::BadState(_))));
    assert!(matches!(itron::task::WakeError::from_error_code(code(E_QOVR)), Some(itron::task::WakeError::QueueOverflow(_))));
    assert!(itron::task::WakeError::from_error_code(code(E_SYS)).is_none());
    assert!(itron::task::WakeError::from_error_code(code(-1000)).is_none());
    assert!(matches!(itron::task::CancelWakeAllError::from_error_code(code(E_CTX)), Some(itron::task::CancelWakeAllError::BadContext(_))));
    assert!(matches!(itron::task::CancelWakeAllError::from_error_code(code(E_ID)), Some(itron::task::CancelWakeAllError::BadId(_))));
    assert!(matches!(itron::task::CancelWakeAllError::from_error_code(code(E_NOEXS)), Some(itron::task::CancelWakeAllError::BadId(_))));
    assert!(matches!(itron::task::CancelWakeAllError::from_error_code(code(E_NOSPT)), Some(itron::task::CancelWakeAllError::NotSupported(_))));
    assert!(matches!(itron::task::CancelWakeAllError::from_error_code(code(E_OBJ)), Some(itron::task::CancelWakeAllError::BadState(_))));
    assert!(itron::task::CancelWakeAllError::from_error_code(code(E_SYS)).is_none());
    assert!(itron::task::CancelWakeAllError::from_error_code(code(-1000)).is_none());
    assert!(matches!(itron::task::ReleaseWaitError::from_error_code(code(E_CTX)), Some(itron::task::ReleaseWaitError::BadContext(_))));
    assert!(matches!(itron::task::ReleaseWaitError::from_error_code(code(E_ID)), Some(itron::task::ReleaseWaitError::BadId(_))));
    assert!(matches!(itron::task::ReleaseWaitError::from_error_code(code(E_NOEXS)), Some(itron::task::ReleaseWaitError::BadId(_))));
    assert!(matches!(itron::task::ReleaseWaitError::from_error_code(code(E_NOSPT)), Some(itron::task::ReleaseWaitError::NotSupported(_))));
    assert!(matches!(itron::task::ReleaseWaitError::from_error_code(code(E_OBJ)), Some(itron::task::ReleaseWaitError::BadState(_))));
    assert!(itron::task::ReleaseWaitError::from_error_code(code(E_SYS)).is_none());
    assert!(itron::task::ReleaseWaitError::from_error_code(code(-1000)).is_none());
    assert!(matches!(itron::task::SuspendError::from_error_code(code(E_CTX)), Some(itron::task::SuspendError::BadContext(_))));
    assert!(matches!(itron::task::SuspendError::from_error_code(code(E_ID)), Some(itron::task::SuspendError::BadId(_))));
    assert!(matches!(itron::task::SuspendError::from_error_code(code(E_NOEXS)), Some(itron::task::SuspendError::BadId(_))));
    assert!(matches!(itron::task::SuspendError::from_error_code(code(E_NOSPT)), Some(itron::task::SuspendError::NotSupported(_))));
    assert!(matches!(itron::task::SuspendError::from_error_code(code(E_OBJ)), Some(itron::task::SuspendError::BadState(_))));
    assert!(matches!(itron::task::SuspendError::from_error_code(code(E_RASTER)), Some(itron::task::SuspendError::BadState(_))));
    assert!(matches!(itron::task::SuspendError::from_error_code(code(E_QOVR)), Some(itron::task::SuspendError::QueueOverflow(_))));
    assert!(itron::task::SuspendError::from_error_code(code(E_SYS)).is_none());
    assert!(itron::task::SuspendError::from_error_code(code(-1000)).is_none());
    assert!(matches!(itron::task::ResumeError::from_error_code(code(E_CTX)), Some(itron::task::ResumeError::BadContext(_))));
    assert!(matches!(itron::task::ResumeError::from_error_code(code(E_ID)), Some(itron::task::ResumeError::BadId(_))));
    assert!(matches!(itron::task::ResumeError::from_error_code(code(E_NOEXS)), Some(itron::task::ResumeError::BadId(_))));
    assert!(matches!(itron::task::ResumeError::from_error_code(code(E_NOSPT)), Some(itron::task::ResumeError::NotSupported(_))));
    assert!(matches!(itron::task::ResumeError::from_error_code(code(E_OBJ)), Some(itron::task::ResumeError::BadState(_))));
    assert!(itron::task::ResumeError::from_error_code(code(E_SYS)).is_none());
    assert!(itron::task::ResumeError::from_error_code(code(-1000)).is_none());
    assert!(matches!(itron::task::TerminateError::from_error_code(code(E_CTX)), Some(itron::task::TerminateError::BadContext(_))));
    assert!(matches!(itron::task::TerminateError::from_error_code(code(E_ID)), Some(itron::task::TerminateError::BadId(_))));
    assert!(matches!(itron::task::TerminateError::from_error_code(code(E_NOEXS)), Some(itron::task::TerminateError::BadId(_))));
    assert!(matches!(itron::task::TerminateError::from_error_code(code(E_OBJ)), Some(itron::task::TerminateError::BadState(_))));
    assert!(matches!(itron::task::TerminateError::from_error_code(code(E_ILUSE)), Some(itron::task::TerminateError::BadParam(_))));
    assert!(itron::task::TerminateError::from_error_code(code(E_SYS)).is_none());
    assert!(itron::task::TerminateError::from_error_code(code(-1000)).is_none());
    assert!(matches!(itron::task::RaiseTerminationError::from_error_code(code(E_CTX)), Some(itron::task::RaiseTerminationError::BadContext(_))));
    assert!(matches!(itron::task::RaiseTerminationError::from_error_code(code(E_ID)), Some(itron::task::RaiseTerminationError::BadId(_))));
    assert!(matches!(itron::task::RaiseTerminationError::from_error_code(code(E_NOEXS)), Some(itron::task::RaiseTerminationError::BadId(_))));
    assert!(matches!(itron::task::RaiseTerminationError::from_error_code(code(E_OBJ)), Some(itron::task::RaiseTerminationError::BadState(_))));
    assert!(matches!(itron::task::RaiseTerminationError::from_error_code(code(E_ILUSE)), Some(itron::task::RaiseTerminationError::BadParam(_))));
    assert!(itron::task::RaiseTerminationError::from_error_code(code(E_SYS)).is_none());
    assert!(itron::task::RaiseTerminationError::from_error_code(code(-1000)).is_none());
    assert!(matches!(itron::task::SleepError::from_error_code(code(E_CTX)), Some(itron::task::SleepError::BadContext(_))));
    assert!(matches!(itron::task::SleepError::from_error_code(code(E_NOSPT)), Some(itron::task::SleepError::NotSupported(_))));
    assert!(matches!(itron::task::SleepError::from_error_code(code(E_RLWAI)), Some(itron::task::SleepError::Released(_))));
    assert!(matches!(itron::task::SleepError::from_error_code(code(E_RASTER)), Some(itron::task::SleepError::TerminateRequest(_))));
    assert!(itron::task::SleepError::from_error_code(code(E_SYS)).is_none());
    assert!(itron::task::SleepError::from_error_code(code(-1000)).is_none());
    assert!(matches!(itron::task::SleepTimeoutError::from_error_code(code(E_CTX)), Some(itron::task::SleepTimeoutError::BadContext(_))));
    assert!(matches!(itron::task::SleepTimeoutError::from_error_code(code(E_NOSPT)), Some(itron::task::SleepTimeoutError::NotSupported(_))));
    assert!(matches!(itron::task::SleepTimeoutError::from_error_code(code(E_TMOUT)), Some(itron::task::SleepTimeoutError::Timeout(_))));
    assert!(matches!(itron::task::SleepTimeoutError::from_error_code(code(E_RLWAI)), Some(itron::task::SleepTimeoutError::Released(_))));
    assert!(matches!(itron::task::SleepTimeoutError::from_error_code(code(E_RASTER)), Some(itron::task::SleepTimeoutError::TerminateRequest(_))));
    assert!(itron::task::SleepTimeoutError::from_error_code(code(E_SYS)).is_none());
    assert!(itron::task::SleepTimeoutError::from_error_code(code(-1000)).is_none());
    assert!(matches!(itron::task::DelayError::from_error_code(code(E_CTX)), Some(itron::task::DelayError::BadContext(_))));
    assert!(matches!(itron::task::DelayError::from_error_code(code(E_NOSPT)), Some(itron::task::DelayError::NotSupported(_))));
    assert!(matches!(itron::task::DelayError::from_error_code(code(E_RLWAI)), Some(itron::task::DelayError::Released(_))));
    assert!(matches!(itron::task::DelayError::from_error_code(code(E_RASTER)), Some(itron::task::DelayError::TerminateRequest(_))));
    assert!(itron::task::DelayError::from_error_code(code(E_SYS)).is_none());
    assert!(itron::task::DelayError::from_error_code(code(-1000)).is_none());
    assert!(matches!(itron::task::ExitError::from_error_code(code(E_CTX)), Some(itron::task::ExitError::BadContext(_))));
    assert!(itron::task::ExitError::from_error_code(code(E_SYS)).is_none());
    assert!(itron::task::ExitError::from_error_code(code(-1000)).is_none());
    assert!(matches!(itron::task::DisableTerminationError::from_error_code(code(E_CTX)), Some(itron::task::DisableTerminationError::BadContext(_))));
    assert!(itron::task::DisableTerminationError::from_error_code(code(E_SYS)).is_none());
    assert!(itron::task::DisableTerminationError::from_error_code(code(-1000)).is_none());
    assert!(matches!(itron::task::CurrentIdError::from_error_code(code(E_CTX)), Some(itron::task::CurrentIdError::BadContext(_))));
    assert!(itron::task::CurrentIdError::from_error_code(code(E_SYS)).is_none());
    assert!(itron::task::CurrentIdError::from_error_code(code(-1000)).is_none());
    assert!(matches!(itron::task::BuildError::from_error_code(code(E_CTX)), Some(itron::task::BuildError::BadContext(_))));
    assert!(matches!(itron::task::BuildError::from_error_code(code(E_NOID)), Some(itron::task::BuildError::OutOfMemory(_))));
    assert!(matches!(itron::task::BuildError::from_error_code(code(E_NOMEM)), Some(itron::task::BuildError::OutOfMemory(_))));
    assert!(matches!(itron::task::BuildError::from_error_code(code(E_PAR)), Some(itron::task::BuildError::BadParam(_))));
    assert!(itron::task::BuildError::from_error_code(code(E_SYS)).is_none());
    assert!(itron::task::BuildError::from_error_code(code(-1000)).is_none());
}

#[test]
fn error_code_accepts_only_negative_values() {
    assert!(ErrorCode::new(0).is_none());
    assert!(ErrorCode::new(5).is_none());
    assert_eq!(ErrorCode::new(-1).unwrap().get(), -1);
    assert_eq!(ErrorCode::new(E_QOVR as isize).unwrap().get(), -43);
    assert_eq!(ErrorCode::new_unchecked(-18).get(), E_ID as isize);
}

#[test]
fn error_reports_its_code_and_kind() {
    let e: Error<SignalError> = Error::new_unchecked(code(E_NOEXS));
    assert_eq!(e.code().get(), E_NOEXS as isize);
    assert!(matches!(e.kind(), SignalError::BadId(_)));
    let r = Error::<SignalError>::err_if_negative(3);
    assert_eq!(r.unwrap(), 3);
    let r = Error::<SignalError>::err_if_negative(E_QOVR as isize);
    assert!(matches!(r.unwrap_err().kind(), SignalError::QueueOverflow(_)));
    assert!(itron::error::check::<SignalError>(0).is_ok());
    assert_eq!(itron::error::check::<SignalError>(E_CTX).unwrap_err().code().get(), E_CTX as isize);
}

#[test]
fn error_kinds_match_exhaustively_with_absent_variants() {
    let k = WaitTimeoutError::from_error_code(code(E_TMOUT)).unwrap();
    let name = match k {
        WaitTimeoutError::BadContext(_) => "BadContext",
        WaitTimeoutError::NotSupported(_) => "NotSupported",
        WaitTimeoutError::BadId(_) => "BadId",
        WaitTimeoutError::AccessDenied(_) => "AccessDenied",
        WaitTimeoutError::Timeout(_) => "Timeout",
        WaitTimeoutError::Released(_) => "Released",
        WaitTimeoutError::TerminateRequest(_) => "TerminateRequest",
        WaitTimeoutError::Deleted(_) => "Deleted",
    };
    assert_eq!(name, "Timeout");
}

#[test]
fn kernel_exit_classifies_nothing() {
    assert!(ExitError::from_error_code(code(E_SYS)).is_none());
    assert!(ExitError::from_error_code(code(E_OACV)).is_none());
}

#[test]
fn error_codes_have_kernel_names() {
    assert_eq!(code(E_QOVR).name(), Some("E_QOVR"));
    assert_eq!(code(E_SYS).name(), Some("E_SYS"));
    assert_eq!(code(E_COMM).name(), Some("E_COMM"));
    assert_eq!(code(-1000).name(), None);
    assert_eq!(code(-1).name(), None);
}

#[test]
fn error_converts_into_its_code() {
    let e: Error<SignalError> = Error::new_unchecked(code(E_CTX));
    let c: ErrorCode = ErrorCode::from(e);
    assert_eq!(c.get(), E_CTX as isize);
    assert_eq!(c, e.code());
}

#[test]
fn try_kinds_classify_timeouts_of_polling_calls() {
    assert!(matches!(
        itron::semaphore::PollError::from_error_code(code(E_TMOUT)),
        Some(itron::semaphore::PollError::Timeout(_))
    ));
    assert!(matches!(
        itron::mutex::TryLockError::from_error_code(code(E_TMOUT)),
        Some(itron::mutex::TryLockError::Timeout(_))
    ));
    let e: Error<SignalError> = Error::from_code(code(E_SYS));
    assert!(e.try_kind().is_none());
    let e: Error<SignalError> = Error::from_code(code(E_QOVR));
    assert!(matches!(e.try_kind(), Some(SignalError::QueueOverflow(_))));
}

#[test]
fn error_code_round_trips_through_its_value() {
    let c = code(E_OBJ);
    assert_eq!(ErrorCode::new(c.get()), Some(c));
}
