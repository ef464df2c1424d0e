//! The shared-memory context exchanged between the host and one PRU core.

use vstd::prelude::*;

verus! {

/// Byte size of each of the two data regions of a context.
pub const PRU_DATA_BUFFER_SIZE: usize = 0x400;

/// The structure overlaid on PRU data memory, one per mapped core.
///
/// The two regions form a double buffer: the core writes the inactive
/// region while the host reads the active one, and a swap is signalled by
/// toggling `buffer`.  `length` carries the byte count of the in-flight or
/// last transmission; the core resets it to zero when a master send is
/// complete.  `slave_max_transmission_length` arms the slave side with an
/// upper bound for an inbound frame; the core resets it to zero when the
/// transfer finishes.
#[derive(Debug)]
pub struct PruSpiContext {
    /// The two data regions of the double buffer.
    pub buffers: (Vec<u8>, Vec<u8>),
    /// Index of the active region; only 0 and 1 are meaningful.
    pub buffer: u32,
    /// Byte count of the in-flight or last transmission; zero means idle.
    pub length: u32,
    /// Upper bound armed for an inbound slave frame; zero means consumed.
    pub slave_max_transmission_length: u32,
}

impl PruSpiContext {
    /// Both regions hold exactly one maximum-size frame.
    pub open spec fn wf(self) -> bool {
        &&& self.buffers.0@.len() == PRU_DATA_BUFFER_SIZE
        &&& self.buffers.1@.len() == PRU_DATA_BUFFER_SIZE
    }

    /// An all-zero data region of the configured size.
    pub open spec fn zero_region() -> Seq<u8> {
        Seq::new(PRU_DATA_BUFFER_SIZE as nat, |i: int| 0u8)
    }

    /// The zero-valued state the context starts in and returns to on reset.
    pub open spec fn is_reset_state(self) -> bool {
        &&& self.buffer == 0
        &&& self.length == 0
        &&& self.slave_max_transmission_length == 0
        &&& self.buffers.0@ == Self::zero_region()
        &&& self.buffers.1@ == Self::zero_region()
    }

    /// Contents of the region selected by `buffer`, falling back to
    /// region 0 whenever the index is out of range.
    pub open spec fn active_region(self) -> Seq<u8> {
        if self.buffer == 1 {
            self.buffers.1@
        } else {
            self.buffers.0@
        }
    }

    /// Create a new zeroed context.
    pub fn new() -> (r: Self)
        ensures
            r.wf(),
            r.is_reset_state(),
    {
        PruSpiContext {
            buffers: (zeroed_region(), zeroed_region()),
            buffer: 0,
            length: 0,
            slave_max_transmission_length: 0,
        }
    }

    /// Byte size of the wire layout: the two regions and the three 32-bit
    /// fields, with no implicit padding.
    pub fn size() -> (s: usize)
        ensures
            s == 2 * PRU_DATA_BUFFER_SIZE + 12,
    {
        2 * PRU_DATA_BUFFER_SIZE + 12
    }

    /// Immutable view of the active data region; an out-of-range index
    /// falls back to region 0 rather than indexing out of bounds.
    pub fn get_buffer(&self) -> (r: &Vec<u8>)
        ensures
            r@ == self.active_region(),
            self.wf() ==> r@.len() == PRU_DATA_BUFFER_SIZE,
    {
        if self.buffer == 1 {
            &self.buffers.1
        } else {
            &self.buffers.0
        }
    }

    /// Mutable view of the active data region, with the same fallback to
    /// region 0 for an out-of-range index.  Only the selected region can
    /// change through the returned reference.
    pub fn get_buffer_mut(&mut self) -> (r: &mut Vec<u8>)
        ensures
            (*r)@ == old(self).active_region(),
            final(self).buffer == old(self).buffer,
            final(self).length == old(self).length,
            final(self).slave_max_transmission_length
                == old(self).slave_max_transmission_length,
            old(self).buffer == 1 ==> final(self).buffers
                == (old(self).buffers.0, *final(r)),
            old(self).buffer != 1 ==> final(self).buffers
                == (*final(r), old(self).buffers.1),
    {
        if self.buffer == 1 {
            &mut self.buffers.1
        } else {
            &mut self.buffers.0
        }
    }

    /// Return the context to its zero-valued initial state, whatever it
    /// held before.
    pub fn reset(&mut self)
        ensures
            final(self).wf(),
            final(self).is_reset_state(),
    {
        self.buffer = 0;
        self.length = 0;
        self.slave_max_transmission_length = 0;
        self.buffers.0 = zeroed_region();
        self.buffers.1 = zeroed_region();
    }
}

impl Default for PruSpiContext {
    fn default() -> (r: Self)
        ensures
            r.wf(),
            r.is_reset_state(),
    {
        Self::new()
    }
}

/// Build one all-zero data region.
fn zeroed_region() -> (r: Vec<u8>)
    ensures
        r@ == PruSpiContext::zero_region(),
{
    let mut v: Vec<u8> = Vec::new();
    let mut i: usize = 0;
    while i < PRU_DATA_BUFFER_SIZE
        invariant
            i <= PRU_DATA_BUFFER_SIZE,
            v@.len() == i,
            forall|j: int| 0 <= j < i ==> v@[j] == 0u8,
        decreases PRU_DATA_BUFFER_SIZE - i,
    {
        v.push(0u8);
        i = i + 1;
    }
    proof {
        assert(v@ =~= PruSpiContext::zero_region());
    }
    v
}

} // verus!
