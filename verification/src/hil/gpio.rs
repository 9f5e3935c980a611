//! The interface of a digital pin

use vstd::prelude::*;

verus! {

/// A trait for digital pins that can be driven
pub trait GPIOPin {
    /// Configures the pin as an output
    fn enable_output(&mut self);

    /// Drives the pin high
    fn set(&mut self);

    /// Drives the pin low
    fn clear(&mut self);
}

} // verus!
