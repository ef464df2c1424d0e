//! Master SPI pin configuration (PRU 0).

use vstd::prelude::*;

verus! {

/// Chip select output.
pub const CS: &'static str = "P9_27";

/// MOSI (master out, slave in) output.
pub const MOSI: &'static str = "P8_11";

/// MISO (master in, slave out) input.
pub const MISO: &'static str = "P8_15";

/// Serial clock output.
pub const SCK: &'static str = "P8_12";

} // verus!
