//! Slave SPI pin configuration (PRU 1).

use vstd::prelude::*;

verus! {

/// Chip select input.
pub const CS: &'static str = "P8_44";

/// MOSI (master out, slave in) input.
pub const MOSI: &'static str = "P8_45";

/// MISO (master in, slave out) output.
pub const MISO: &'static str = "P8_43";

/// Serial clock input.
pub const SCK: &'static str = "P8_46";

} // verus!
