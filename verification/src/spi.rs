//! Wire frames of the register protocol spoken over the SPI device.
//!
//! The device file itself is read and written outside the library;
//! what stands here is the shape of the two-byte frames: a read frame
//! carries the register address and a placeholder byte, a write frame
//! sets the address's top bit to mark the write and carries the value,
//! and the value read comes back in the second byte of the response.

use vstd::prelude::*;

verus! {

/// The top bit of the address byte marks a write operation.
pub const WRITE_FLAG: u8 = 0x80;

/// The two-byte frame that requests a read of `register`.
pub fn encode_read_frame(register: u8) -> (v: Vec<u8>)
    ensures
        v@ == seq![register, 0u8],
{
    let mut v: Vec<u8> = Vec::new();
    v.push(register);
    v.push(0u8);
    proof {
        assert(v@ =~= seq![register, 0u8]);
    }
    v
}

/// The two-byte frame that writes `value` to `register`: the address
/// byte carries the write flag.
pub fn encode_write_frame(register: u8, value: u8) -> (v: Vec<u8>)
    ensures
        v@ == seq![register | WRITE_FLAG, value],
{
    let mut v: Vec<u8> = Vec::new();
    v.push(register | WRITE_FLAG);
    v.push(value);
    proof {
        assert(v@ =~= seq![register | WRITE_FLAG, value]);
    }
    v
}

/// The register value carried by a two-byte read response.
pub fn read_response_value(response: &Vec<u8>) -> (r: u8)
    requires
        response@.len() == 2,
    ensures
        r == response@[1],
{
    response[1]
}

} // verus!
