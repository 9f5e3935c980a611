//! What the drivers of other chips on the board decide. To talk to the chips is the
//! caller's part.

pub mod fxos8700cq;
