//! Keeps the transport trait closed to the two transports of this crate.
use crate::interface::{I2cInterface, SpiInterface};
use vstd::prelude::*;

verus! {

/// Implemented only by this crate's transports.
pub trait Sealed {}

impl<SPI> Sealed for SpiInterface<SPI> {}

impl<I2C> Sealed for I2cInterface<I2C> {}

} // verus!
