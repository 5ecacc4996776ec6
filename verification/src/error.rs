//! Result vocabulary of the processor's operations.

use vstd::prelude::*;

verus! {

/// Why an operation on the interrupt line, or a run of the processor, failed.
#[derive(Debug, Clone, Copy)]
pub enum Error {
    /// The lock that guards the interrupt line is not in a usable state.
    InvalidMutex,
    /// A non-blocking call found the lock taken.
    WouldBlock,
    /// A blocking call found the lock already held by its own caller.
    Deadlock,
    /// Any other failure, with a short description.
    Other(&'static str),
}

pub type Result<T> = std::result::Result<T, Error>;

/// The state in which a run of the processor ended.
#[derive(Debug, Clone, Copy)]
pub enum StopReason {
    /// The cycle budget ran out while the processor was running.
    Done,
    /// The processor is halted and a maskable interrupt can release it;
    /// carries the cycles consumed by the run.
    Halted(i32),
    /// The processor is halted with interrupts disabled: only a reset
    /// releases it; carries the cycles consumed by the run.
    Hung(i32),
    /// The run was abandoned.
    Error(Error),
}

} // verus!
