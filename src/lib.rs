//! Driver for the Microchip 25AA02E48 SPI EEPROM: 256 bytes in 16-byte pages,
//! with a factory-programmed EUI-48 MAC address in its last six bytes.
//!
//! The driver is generic over an [`SpiTransport`], which runs framed
//! transactions (one chip-select assertion each). Every transaction the driver
//! issues is recorded in a ghost history, and the contracts of the driver's
//! operations say exactly which transactions they issue and what they return.
use vstd::prelude::*;

pub mod instruction;
pub mod transport;
pub mod driver;
pub mod model;

pub use driver::Eeprom25aa02e48;
pub use transport::{Operation, SpiTransport};

verus! {

/// Number of bytes in an EUI-48 MAC address.
pub const EUI48_BYTES: usize = 6;

/// EEPROM memory address of the EUI-48 MAC address.
pub const EUI48_MEMORY_ADDRESS: u8 = 0xFA;

/// EEPROM page size in bytes.
pub const PAGE_SIZE: u8 = 16;

/// Number of bytes in the EEPROM's memory array.
pub const MEMORY_BYTES: usize = 256;

} // verus!
