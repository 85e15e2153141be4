//! Failures that bring-up and bus transfers report to their caller.
use vstd::prelude::*;

verus! {

/// A failure of bring-up or of a bus transfer.
#[derive(Clone, Copy, Debug, PartialEq, Eq, Structural)]
pub enum PeriphError {
    /// A readiness poll used up its budget without seeing the condition.
    Timeout,
    /// A device did not acknowledge its address or a byte.
    BusError,
    /// A request that the hardware cannot carry out: a pin out of range, a
    /// reset mask outside the defined domains, a duty cycle above the top
    /// value, a second claim of the peripherals.
    ConfigurationError,
}

} // verus!
