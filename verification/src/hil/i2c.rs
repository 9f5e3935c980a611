//! The interface of an I2C master

use vstd::prelude::*;

verus! {

/// A trait for types that allow I2C communication
pub trait I2C {
    /// Enables the bus
    fn enable(&self);

    /// Disables the bus
    fn disable(&self);

    /// Writes `data` to the device at `addr`
    fn write_sync(&self, addr: u16, data: &[u8]);

    /// Fills `buffer` from the device at `addr`
    fn read_sync(&self, addr: u16, buffer: &mut [u8]);

    /// Writes the register number `reg` to the device at `addr` and, after a repeated start,
    /// fills `data` from it
    fn write_read_repeated_start(&self, addr: u16, reg: u8, data: &mut [u8]);
}

} // verus!
