//! Burst data passed from the upper layer to the modulator.
//!
//! A burst is a fixed-length array of bits, one bit per byte (0 or 1).
//! The class of the burst fixes the payload length.

use vstd::prelude::*;

verus! {

/// Bits of a continuous down-link burst: 255 symbols, two bits each.
pub const DL_BURST_BITS: usize = 510;

/// Bits of a direct-mode burst: 235 symbols, two bits each.
pub const DMO_BURST_BITS: usize = 470;

/// A burst handed down by the upper layer for transmission.
#[derive(Clone, Copy)]
pub enum TxBurst {
    /// No burst to transmit.
    Empty,
    /// Continuous down-link burst.
    /// The modulator does not care whether it is a normal or a
    /// synchronization burst, since both have the same number of symbols.
    Dl([u8; 510]),
    /// Direct mode burst.
    /// Normal and synchronization bursts share this value for the same
    /// reason.
    Dmo([u8; 470]),
}

} // verus!
