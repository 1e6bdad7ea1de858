//! Shared definitions for waitable objects.
use vstd::prelude::*;

use crate::abi::{ATR, TA_NULL, TA_TPRI};

verus! {

/// Specifies the sorting order of a wait queue.
#[derive(Debug, Clone, Copy, PartialEq, Eq)]
pub enum QueueOrder {
    /// The wait queue is processed in a FIFO order.
    Fifo,
    /// The wait queue is processed in a task priority order.
    TaskPriority,
}

impl QueueOrder {
    /// The attribute that selects this order.
    pub open spec fn spec_atr(self) -> ATR {
        match self {
            QueueOrder::Fifo => TA_NULL,
            QueueOrder::TaskPriority => TA_TPRI,
        }
    }

    /// Convert `self` to a value of type [`ATR`].
    pub fn as_raw_atr(self) -> (r: ATR)
        ensures
            r == self.spec_atr(),
    {
        match self {
            QueueOrder::Fifo => TA_NULL,
            QueueOrder::TaskPriority => TA_TPRI,
        }
    }
}

} // verus!
