//! Layer-1 signal-processing core of a TDMA software-defined radio.
//!
//! The crate holds the verified DSP pipeline: slot numbering over the
//! hyperframe structure, the integer cascaded-integrator-comb up- and
//! down-converters, the DQPSK mapper, and the modulator timing model.
//! Radio device I/O and the floating-point stages around the integer
//! core live outside this library.

pub mod burst;
pub mod cic;
pub mod control;
pub mod eucl;
pub mod modem;
pub mod slot;
pub mod stream;

pub use burst::TxBurst;
pub use control::{L1RxCommands, L1TxCommands};
pub use modem::{DqpskMapper, Modulator};
pub use slot::SlotNumber;
pub use stream::StreamErrorKind;
