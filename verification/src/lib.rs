//! Link-layer codec and transceiver driver for the AT86RF230 IEEE 802.15.4 radio, with the
//! register arithmetic of the board that it runs on.
//!
//! - `frame` and `decode`: the frame model, its encoding as a MAC protocol data unit, and
//!   the way back.
//! - `registers`, `state`, `interrupt`: the register map of the radio, its operating states
//!   with the way from one to another, and the causes of its interrupt.
//! - `bus`, `recorded`: the bus with its select line, the transaction that frames an
//!   exchange, and the pins and the client of the driver, each with a record of what is
//!   done through it.
//! - `driver`, `received`: the driver itself, which is the transceiver that the layers above
//!   see, and what it reads out of the frame buffer.
//! - `hil`: the interfaces below and above the driver.
//! - `sam4l`, `drivers`, `platform`, `console`: what goes into the registers of the
//!   processor's peripherals, what the driver of the accelerometer decides, what the board
//!   decides, and the system calls of a process that writes to the console.
//!
//! Nothing here touches hardware: the bus, the pins and the client are handed in, and
//! register values are computed from register values.

pub mod bus;
pub mod console;
pub mod decode;
pub mod driver;
pub mod drivers;
pub mod error;
pub mod frame;
pub mod hil;
pub mod interrupt;
pub mod platform;
pub mod received;
pub mod recorded;
pub mod registers;
pub mod sam4l;
pub mod state;
