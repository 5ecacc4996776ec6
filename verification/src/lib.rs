//! A Z80 processor core: register model, memory and port capabilities,
//! instruction execution under a cycle budget, and the maskable interrupt line.

pub mod alu;
pub mod cpu;
pub mod engine;
pub mod error;
pub mod laws;
pub mod machine;
pub mod memory;
pub mod registers;
pub mod status;

pub use cpu::Cpu;
pub use engine::{BusLock, IoPort};
pub use error::{Error, StopReason};
pub use registers::Registers;
pub use memory::{Image, IoDevice, Memory};
