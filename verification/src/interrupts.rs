//! Interrupt events between the co-processors and the host.

use vstd::prelude::*;

verus! {

/// PRU 0 to host event.
pub const PRU0_ARM_EVENT: i32 = 19;

/// PRU 1 to host event.
pub const PRU1_ARM_EVENT: i32 = 20;

/// Timeout in milliseconds for waiting on a co-processor interrupt.
pub const CHECK_TIMEOUT_MS: u64 = 5000;

} // verus!
