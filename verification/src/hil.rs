//! The hardware interface layer: what the radio driver asks of the peripherals below it, and
//! what it offers to the layers above.

pub mod gpio;
pub mod i2c;
pub mod ieee802154;
pub mod spi_master;
