//! Per-carrier control records polled from the upper layer.

use vstd::prelude::*;
use crate::slot::SlotNumber;

verus! {

/// Commands for a receive carrier.
pub struct L1RxCommands {
    /// Slot timestamp corresponding to `timing_slot`.
    /// Used if `set_timing` is true.
    pub timing_time: i64,
    /// Slot number corresponding to `timing_time`.
    /// Used if `set_timing` is true.
    pub timing_slot: SlotNumber,
    /// Set slot timing according to `timing_slot` and `timing_time`.
    pub set_timing: bool,
}

/// Commands for a transmit carrier.
pub struct L1TxCommands {
    /// Slot timestamp corresponding to `timing_slot`.
    /// Used if `set_timing` is true.
    pub timing_time: i64,
    /// Slot number corresponding to `timing_time`.
    /// Used if `set_timing` is true.
    pub timing_slot: SlotNumber,
    /// Set slot timing according to `timing_slot` and `timing_time`.
    pub set_timing: bool,
}

} // verus!
