//! The error taxonomy of the search: a fatal target-validation failure,
//! per-device startup failures, and the recoverable per-round interruption.

use vstd::prelude::*;

verus! {

/// Everything that can go wrong in the search core. `InvalidTarget` carries
/// the first offending byte of the prefix and is fatal before any worker
/// starts; `DeviceUnavailable` and `KernelLoadFailure` are fatal to one GPU
/// driver thread only; `RoundInterrupted` (timeout or abort) is recoverable;
/// `SignalInstallFailure` is fatal at startup.
#[derive(Clone, Copy, Debug, PartialEq, Eq, Structural)]
pub enum VanityError {
    InvalidTarget(u8),
    DeviceUnavailable,
    KernelLoadFailure,
    RoundInterrupted,
    SignalInstallFailure,
}

impl VanityError {
    /// A fixed description of the error for logging.
    pub fn message(&self) -> (r: &'static str) {
        match self {
            VanityError::InvalidTarget(_) => "target contains a character outside the base-58 alphabet",
            VanityError::DeviceUnavailable => "no compute device found",
            VanityError::KernelLoadFailure => "compute kernel could not be loaded",
            VanityError::RoundInterrupted => "GPU computation interrupted",
            VanityError::SignalInstallFailure => "interrupt handler could not be installed",
        }
    }
}

} // verus!
