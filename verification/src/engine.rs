//! The processor's own state: registers, interrupt flip-flops, halt state
//! and the interrupt line with the lock that guards it.

use vstd::prelude::*;
use crate::error::Error;
use crate::memory::IoDevice;
use crate::registers::Registers;

verus! {

/// The lock that guards the interrupt line.
#[derive(Debug, Clone, Copy)]
pub enum BusLock {
    /// Nobody holds the lock.
    Free,
    /// The host holds the lock.
    Held,
    /// The lock is not in a usable state.
    Invalid,
}

/// One slot of the port table: the device installed on the port, if any.
/// A port without a device reads as 0 and discards what is written.
pub struct IoPort<D> {
    pub device: Option<D>,
}

impl<D: IoDevice> IoPort<D> {
    /// A port with no device.
    pub fn empty() -> (port: IoPort<D>)
        ensures
            port.device is None,
    {
        IoPort { device: None }
    }

    /// The byte that a read of the port returns.
    pub open spec fn input(self) -> u8 {
        match self.device {
            Some(device) => device.input(),
            None => 0,
        }
    }

    /// The port after a byte was written to it.
    pub open spec fn after_output(self, value: u8) -> IoPort<D> {
        match self.device {
            Some(device) => IoPort { device: Some(device.after_output(value)) },
            None => self,
        }
    }

    /// Reads the port: one read of the device, or 0 without a device.
    pub fn read_in(&self) -> (value: u8)
        ensures
            value == self.input(),
    {
        match &self.device {
            Some(device) => device.read_in(),
            None => 0,
        }
    }

    /// Writes to the port: one write to the device, or nothing without one.
    pub fn write_out(&mut self, value: u8)
        ensures
            *final(self) == old(self).after_output(value),
    {
        match &mut self.device {
            Some(device) => {
                device.write_out(value);
            },
            None => {},
        }
    }
}

/// The state of one processor.
#[derive(Debug, Clone, Copy)]
pub struct Cpu {
    pub registers: Registers,
    /// Whether a maskable interrupt is honoured.
    pub iff1: bool,
    /// The enable state that tells a releasable halt from a hung one.
    pub iff2: bool,
    /// The interrupt mode: 0 and 2 select those modes, any other value mode 1.
    pub int_mode: u8,
    /// Set by EI: interrupts stay off until the next instruction is done.
    pub iff_wait: bool,
    /// Set by HALT, cleared when an interrupt is accepted.
    pub halted: bool,
    pub bus_lock: BusLock,
    /// Whether an interrupt is pending on the line.
    pub interrupt: bool,
    /// The byte that the interrupting device put on the bus.
    pub bus: u8,
}

impl Cpu {
    /// The state at reset: every register zero, interrupts disabled in
    /// mode 0, running, the line idle and its lock free.
    pub open spec fn reset() -> Cpu {
        Cpu {
            registers: Registers::reset(),
            iff1: false,
            iff2: false,
            int_mode: 0,
            iff_wait: false,
            halted: false,
            bus_lock: BusLock::Free,
            interrupt: false,
            bus: 0,
        }
    }

    pub fn new() -> (cpu: Cpu)
        ensures
            cpu == Cpu::reset(),
    {
        Cpu {
            registers: Registers::new(),
            iff1: false,
            iff2: false,
            int_mode: 0,
            iff_wait: false,
            halted: false,
            bus_lock: BusLock::Free,
            interrupt: false,
            bus: 0,
        }
    }

    /// Halted with interrupts disabled: only a reset leaves this state.
    pub open spec fn hung(self) -> bool {
        self.halted && !self.iff2
    }

    /// Whether a pending interrupt is accepted at the next instruction
    /// boundary.
    pub open spec fn interrupt_due(self) -> bool {
        self.iff1 && !self.iff_wait && self.interrupt
    }

    /// What taking the lock gives: success on a free lock; on a held one
    /// `Deadlock` for a caller that would wait and `WouldBlock` for one that
    /// would not; `InvalidMutex` on an unusable one.
    pub open spec fn spec_acquire(self, blocking: bool) -> Result<(), Error> {
        match self.bus_lock {
            BusLock::Free => Ok(()),
            BusLock::Held => Err(if blocking { Error::Deadlock } else { Error::WouldBlock }),
            BusLock::Invalid => Err(Error::InvalidMutex),
        }
    }

    #[verifier::when_used_as_spec(spec_acquire)]
    pub fn acquire(self, blocking: bool) -> (taken: Result<(), Error>)
        ensures
            taken == self.spec_acquire(blocking),
    {
        match self.bus_lock {
            BusLock::Free => Ok(()),
            BusLock::Held => Err(if blocking { Error::Deadlock } else { Error::WouldBlock }),
            BusLock::Invalid => Err(Error::InvalidMutex),
        }
    }

    /// What a post gives: the error of taking the lock; on a line that is
    /// already pending a rejection, as `Other`; else success.
    pub open spec fn spec_post_status(self, blocking: bool) -> Result<(), Error> {
        if self.spec_acquire(blocking) is Err {
            self.spec_acquire(blocking)
        } else if self.interrupt {
            Err(Error::Other("interrupt already pending"))
        } else {
            Ok(())
        }
    }

    #[verifier::when_used_as_spec(spec_post_status)]
    pub fn post_status(self, blocking: bool) -> (status: Result<(), Error>)
        ensures
            status == self.spec_post_status(blocking),
    {
        let taken = self.acquire(blocking);
        if taken.is_err() {
            taken
        } else if self.interrupt {
            Err(Error::Other("interrupt already pending"))
        } else {
            Ok(())
        }
    }

    /// The state after an interrupt was posted with the lock taken: an idle
    /// line becomes pending with `bus`, a pending one stays as it is.
    pub open spec fn spec_posted(self, bus: u8) -> Cpu {
        if self.interrupt {
            self
        } else {
            Cpu { interrupt: true, bus: bus, ..self }
        }
    }

    #[verifier::when_used_as_spec(spec_posted)]
    pub fn posted(self, bus: u8) -> (cpu: Cpu)
        ensures
            cpu == self.spec_posted(bus),
    {
        if self.interrupt {
            self
        } else {
            Cpu { interrupt: true, bus: bus, ..self }
        }
    }

    /// The state after the line was cleared with the lock taken.
    pub open spec fn spec_cleared(self) -> Cpu {
        Cpu { interrupt: false, ..self }
    }

    #[verifier::when_used_as_spec(spec_cleared)]
    pub fn cleared(self) -> (cpu: Cpu)
        ensures
            cpu == self.spec_cleared(),
    {
        Cpu { interrupt: false, ..self }
    }
}

} // verus!
