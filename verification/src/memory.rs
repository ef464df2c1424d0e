//! Sizes of the co-processor memories the context is mapped into.

use vstd::prelude::*;

verus! {

/// PRU data RAM size.
pub const PRU_DATA_RAM_SIZE: usize = 8192;

/// Shared PRU memory size.
pub const PRU_SHARED_RAM_SIZE: usize = 4096;

/// PRU instruction RAM size.
pub const PRU_INSTR_RAM_SIZE: usize = 8192;

/// Base offset of the shared context in PRU data RAM.
pub const CONTEXT_OFFSET: usize = 0;

} // verus!
