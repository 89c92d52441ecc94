//! A sixteen-channel ADC read in one go.

use vstd::prelude::*;

verus! {

/// An ADC that samples all sixteen channels at once.
pub trait Adc {
    type Error;

    /// Samples every channel.
    fn read_all(&mut self) -> Result<[u16; 16], Self::Error>;

    /// Runs the converter's self-calibration.
    fn calibrate(&mut self) -> Result<(), Self::Error>;
}

} // verus!
