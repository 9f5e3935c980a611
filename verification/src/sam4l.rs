//! The arithmetic of the SAM4L peripherals that sit between the processor and the radio:
//! which bits go into which register. The registers themselves are the caller's to read and
//! write.

pub mod eic;
pub mod spi;
pub mod usart;
