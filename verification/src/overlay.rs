//! The device tree overlay that routes the SPI pins to the PRU cores.

use vstd::prelude::*;

verus! {

/// Device tree overlay name.
pub const DTBO_FILE: &'static str = "BB-PRU-BITB-SPI-00A0";

/// Overlay slots directory.
pub const SLOTS_PATH: &'static str = "/sys/devices/platform/bone_capemgr.9/slots";

/// The overlay must be applied before the co-processors are initialised.
pub const LOAD_ORDER: &'static str = "Device tree overlay must be loaded first";

} // verus!
