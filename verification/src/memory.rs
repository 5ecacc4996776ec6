//! The two capabilities through which the processor reaches its host:
//! a byte-addressable memory and a single-byte I/O device.

use vstd::prelude::*;
use crate::registers::{spec_offset, spec_word};

verus! {

/// The processor's view of a memory: the byte that a read of each of the
/// 65536 addresses returns, and the addresses at which a write is stored.
pub struct Image {
    pub cells: Map<u16, u8>,
    pub writable: Set<u16>,
}

impl Image {
    /// The byte that a read at `address` returns.
    pub open spec fn read(self, address: u16) -> u8 {
        self.cells[address]
    }

    /// The image after a write: the cell changes where the provider stores
    /// writes, and nothing changes elsewhere.
    pub open spec fn write(self, address: u16, value: u8) -> Image {
        if self.writable.contains(address) {
            Image { cells: self.cells.insert(address, value), writable: self.writable }
        } else {
            self
        }
    }

    /// The 16-bit word whose low byte is at `address` and whose high byte
    /// is at the following address.
    pub open spec fn read_word(self, address: u16) -> u16 {
        spec_word(self.read(spec_offset(address, 1i32)), self.read(address))
    }
}

/// An interface for a 16-bit addressed container of bytes.
///
/// A provider states its own policy for addresses it does not back through
/// `image`: what such a read returns, and whether such a write is stored.
/// `image` serves proofs alone and is never called when the program runs.
pub trait Memory {
    /// What the processor sees of this memory.
    spec fn image(&self) -> Image;

    fn read_byte(&self, address: u16) -> (value: u8)
        ensures
            value == self.image().read(address),
    ;

    fn write_byte(&mut self, address: u16, value: u8)
        ensures
            final(self).image() == old(self).image().write(address, value),
    ;
}

/// A byte vector as memory: it backs the addresses below its length. A read
/// above them returns 0 and a write above them is ignored.
impl Memory for Vec<u8> {
    open spec fn image(&self) -> Image {
        Image {
            cells: Map::new(
                |a: u16| true,
                |a: u16| if (a as int) < self@.len() { self@[a as int] } else { 0u8 },
            ),
            writable: Set::new(|a: u16| (a as int) < self@.len()),
        }
    }

    fn read_byte(&self, address: u16) -> (value: u8) {
        let address = address as usize;
        if address < self.len() {
            self[address]
        } else {
            0
        }
    }

    fn write_byte(&mut self, address: u16, value: u8) {
        let index = address as usize;
        if index < self.len() {
            self.set(index, value);
        }
        proof {
            assert(final(self).image().cells =~= old(self).image().write(address, value).cells);
            assert(final(self).image().writable =~= old(self).image().write(address, value).writable);
        }
    }
}

/// A full array of 65536 bytes as memory: it backs every address.
impl Memory for [u8; 0x10000] {
    open spec fn image(&self) -> Image {
        Image { cells: Map::new(|a: u16| true, |a: u16| self@[a as int]), writable: Set::new(|a: u16| true) }
    }

    fn read_byte(&self, address: u16) -> (value: u8) {
        self[address as usize]
    }

    fn write_byte(&mut self, address: u16, value: u8) {
        self[address as usize] = value;
        proof {
            assert(final(self).image().cells =~= old(self).image().write(address, value).cells);
            assert(final(self).image().writable =~= old(self).image().write(address, value).writable);
        }
    }
}

/// An interface for implementing one Z80 I/O port.
///
/// `input` and `after_output` describe the device to proofs and are never
/// called when the program runs: a read returns what `input` gives and
/// leaves the device as it is, and a write leaves the device that
/// `after_output` gives.
pub trait IoDevice: Sized {
    /// The byte that the device presents to a read.
    spec fn input(&self) -> u8;

    /// The device after it has taken one written byte.
    spec fn after_output(&self, value: u8) -> Self;

    fn read_in(&self) -> (value: u8)
        ensures
            value == self.input(),
    ;

    fn write_out(&mut self, value: u8)
        ensures
            *final(self) == old(self).after_output(value),
    ;
}

} // verus!
