//! EEPROM instruction opcodes.
use vstd::prelude::*;

verus! {

/// Read data from memory array beginning at selected address.
pub const READ: u8 = 0x03;

/// Write data to memory array beginning at selected address.
pub const WRITE: u8 = 0x02;

/// Reset the write enable latch (disable write operations).
pub const WRDI: u8 = 0x04;

/// Set the write enable latch (enable write operations).
pub const WREN: u8 = 0x06;

/// Read STATUS register.
pub const RDSR: u8 = 0x05;

/// Write STATUS register.
pub const WRSR: u8 = 0x01;

} // verus!
