//! The SPI slave controller.
//!
//! The slave mirrors the master's session lifecycle over its own mapped
//! [`PruSpiContext`]; the asymmetry is which fields it writes.  It arms
//! reception by setting `slave_max_transmission_length`, which the
//! co-processor returns to zero once the corresponding inbound transfer
//! finished, and it reads `length` to learn how many bytes the last
//! inbound frame actually carried.

use vstd::prelude::*;

use crate::lifecycle::ControllerError;
use crate::lifecycle::ControllerLifecycle;
use crate::lifecycle::MonitorAction;
use crate::pru_context::PRU_DATA_BUFFER_SIZE;
use crate::pru_context::PruSpiContext;

verus! {

/// Host-side controller for the SPI slave core.
pub struct PruSpiSlave {
    /// Session lifecycle flags shared with the master controller's design.
    pub lifecycle: ControllerLifecycle,
    /// The mapped shared context, once the hardware binding installed it.
    pub context: Option<PruSpiContext>,
}

impl PruSpiSlave {
    /// A context is mapped.
    pub open spec fn is_mapped(self) -> bool {
        self.context is Some
    }

    /// The buffer index the mapped context currently shows; 0 while
    /// unmapped.
    pub open spec fn current_buffer_spec(self) -> u32 {
        match self.context {
            Some(c) => c.buffer,
            None => 0u32,
        }
    }

    /// An armed reception has completed exactly when a context is mapped
    /// and the co-processor returned `slave_max_transmission_length` to
    /// zero, consuming the armed request.
    pub open spec fn transmission_done_spec(self) -> bool {
        match self.context {
            Some(c) => c.slave_max_transmission_length == 0,
            None => false,
        }
    }

    /// Effect of `enable_receive`: the bound is written into the mapped
    /// context, and nothing happens while unmapped.
    pub open spec fn enable_receive_spec(self, max_length: u32) -> Self {
        match self.context {
            Some(c) => PruSpiSlave {
                context: Some(
                    PruSpiContext { slave_max_transmission_length: max_length, ..c },
                ),
                ..self
            },
            None => self,
        }
    }

    /// Byte count of the last inbound frame, as the co-processor left it
    /// in the context's `length` field; 0 while unmapped.  Meaningful
    /// only after a completed cycle: callers compare it against the
    /// count they expected to detect a partial transfer.
    pub open spec fn last_transmission_length_spec(self) -> u32 {
        match self.context {
            Some(c) => c.length,
            None => 0u32,
        }
    }

    /// Create a new controller with nothing initialised and no context
    /// mapped.
    pub fn new() -> (r: Self)
        ensures
            r.lifecycle == ControllerLifecycle::initial(),
            r.context is None,
    {
        PruSpiSlave { lifecycle: ControllerLifecycle::new(), context: None }
    }

    /// Install the mapped shared context.
    pub fn attach_context(&mut self, ctx: PruSpiContext)
        ensures
            final(self).context == Some(ctx),
            final(self).lifecycle == old(self).lifecycle,
    {
        self.context = Some(ctx);
    }

    /// Hand the context back for unmapping at shutdown.
    pub fn detach_context(&mut self) -> (r: Option<PruSpiContext>)
        ensures
            r == old(self).context,
            final(self).context is None,
            final(self).lifecycle == old(self).lifecycle,
    {
        self.context.take()
    }

    /// Initialise the co-processor driver and enable the program.
    /// Calling it when already initialised is a no-op that still
    /// succeeds.
    pub fn init(&mut self) -> (r: Result<(), ControllerError>)
        ensures
            final(self).lifecycle == old(self).lifecycle.init_spec(),
            final(self).context == old(self).context,
            r is Ok,
    {
        self.lifecycle.init_step();
        Ok(())
    }

    /// Start the monitor loop, installing a callback when one is
    /// provided and keeping any installed earlier.
    pub fn start(&mut self, install_callback: bool) -> (r: Result<(), ControllerError>)
        ensures
            final(self).lifecycle == old(self).lifecycle.start_spec(install_callback),
            final(self).context == old(self).context,
            r is Ok,
    {
        self.lifecycle.start_step(install_callback);
        Ok(())
    }

    /// Ask the monitor loop to exit and clear the callback slot.
    pub fn stop(&mut self)
        ensures
            final(self).lifecycle == old(self).lifecycle.stop_spec(),
            final(self).context == old(self).context,
    {
        self.lifecycle.stop_step();
    }

    /// Record that the monitor loop has been joined.
    pub fn wait(&mut self) -> (r: Result<(), ControllerError>)
        ensures
            final(self).lifecycle == old(self).lifecycle.wait_spec(),
            final(self).context == old(self).context,
            r is Ok,
    {
        self.lifecycle.wait_step();
        Ok(())
    }

    /// Release driver resources.  Safe to call any number of times.
    pub fn cleanup(&mut self)
        ensures
            final(self).lifecycle == old(self).lifecycle.cleanup_spec(),
            final(self).context == old(self).context,
    {
        self.lifecycle.cleanup_step();
    }

    /// Destruction path: request a stop, consider the loop joined, and
    /// release resources, in that order, regardless of prior state.
    pub fn shutdown(&mut self)
        ensures
            final(self).lifecycle
                == old(self).lifecycle.stop_spec().wait_spec().cleanup_spec(),
            final(self).context == old(self).context,
    {
        self.stop();
        let _ = self.wait();
        self.cleanup();
    }

    /// Arm reception of an inbound frame of at most `max_length` bytes;
    /// silently ignored while unmapped.
    pub fn enable_receive(&mut self, max_length: u32)
        ensures
            *final(self) == old(self).enable_receive_spec(max_length),
    {
        match &mut self.context {
            Some(c) => {
                c.slave_max_transmission_length = max_length;
            },
            None => {},
        }
    }

    /// The armed reception has completed: a context is mapped and its
    /// bound field is back to zero.
    pub fn is_transmission_done(&self) -> (r: bool)
        ensures
            r == self.transmission_done_spec(),
    {
        match &self.context {
            Some(c) => c.slave_max_transmission_length == 0,
            None => false,
        }
    }

    /// Byte count of the last inbound frame; 0 while unmapped.
    pub fn get_last_transmission_length(&self) -> (r: u32)
        ensures
            r == self.last_transmission_length_spec(),
    {
        match &self.context {
            Some(c) => c.length,
            None => 0,
        }
    }

    /// The buffer index the mapped context currently shows; 0 while
    /// unmapped.
    pub fn get_buffer(&self) -> (r: u32)
        ensures
            r == self.current_buffer_spec(),
    {
        match &self.context {
            Some(c) => c.buffer,
            None => 0,
        }
    }

    /// The poll loop that waits for the armed reception keeps polling
    /// while no stop was requested and the reception has not completed.
    pub fn should_keep_waiting(&self) -> (r: bool)
        ensures
            r == (!self.lifecycle.should_stop_spec() && !self.transmission_done_spec()),
    {
        !self.lifecycle.should_stop() && !self.is_transmission_done()
    }

    /// Immutable view of the active data region of the mapped context;
    /// nothing while unmapped.
    pub fn get_data(&self) -> (r: Option<&Vec<u8>>)
        ensures
            r is Some <==> self.context is Some,
            r matches Some(b) ==> ({
                &&& self.context matches Some(c)
                &&& b@ == c.active_region()
                &&& c.wf() ==> b@.len() == PRU_DATA_BUFFER_SIZE
            }),
    {
        match &self.context {
            Some(c) => Some(c.get_buffer()),
            None => None,
        }
    }

    /// Mutable view of the active data region of the mapped context;
    /// nothing while unmapped.
    pub fn get_data_mut(&mut self) -> (r: Option<&mut Vec<u8>>)
        ensures
            r is Some <==> old(self).context is Some,
            old(self).context is None ==> *final(self) == *old(self),
            r matches Some(b) ==> ({
                &&& old(self).context matches Some(c)
                &&& (*b)@ == c.active_region()
                &&& final(self).lifecycle == old(self).lifecycle
                &&& final(self).context matches Some(c2)
                &&& c2.buffer == c.buffer
                &&& c2.length == c.length
                &&& c2.slave_max_transmission_length == c.slave_max_transmission_length
                &&& if c.buffer == 1 {
                    c2.buffers == (c.buffers.0, *final(b))
                } else {
                    c2.buffers == (*final(b), c.buffers.1)
                }
            }),
    {
        match &mut self.context {
            Some(c) => Some(c.get_buffer_mut()),
            None => None,
        }
    }

    /// What the monitor loop observes: the mapped context's buffer
    /// index, or nothing while unmapped.
    pub open spec fn observed_buffer_spec(self) -> Option<u32> {
        match self.context {
            Some(c) => Some(c.buffer),
            None => None,
        }
    }

    /// Take one monitor-loop decision, as the master does.
    pub fn monitor_step(&mut self) -> (a: MonitorAction)
        ensures
            (a, final(self).lifecycle)
                == old(self).lifecycle.observe_spec(old(self).observed_buffer_spec()),
            final(self).context == old(self).context,
    {
        let current = match &self.context {
            Some(c) => Some(c.buffer),
            None => None,
        };
        self.lifecycle.observe(current)
    }

    /// Whether either stop flag asks the monitor loop to exit.
    pub fn should_stop(&self) -> (r: bool)
        ensures
            r == self.lifecycle.should_stop_spec(),
    {
        self.lifecycle.should_stop()
    }
}

impl Default for PruSpiSlave {
    fn default() -> (r: Self)
        ensures
            r.lifecycle == ControllerLifecycle::initial(),
            r.context is None,
    {
        Self::new()
    }
}

/// Arming a reception with a positive bound on a mapped controller
/// leaves the reception pending, and it completes exactly when the
/// co-processor (or a test double standing in for it) returns the bound
/// field to zero — whatever byte count it reports in `length`.
pub proof fn lemma_enable_receive_blocks_done(s: PruSpiSlave, n: u32, c2: PruSpiContext)
    requires
        s.is_mapped(),
        n > 0,
    ensures
        !s.enable_receive_spec(n).transmission_done_spec(),
        (PruSpiSlave { context: Some(c2), ..s }).transmission_done_spec()
            <==> c2.slave_max_transmission_length == 0,
        (PruSpiSlave { context: Some(c2), ..s }).last_transmission_length_spec()
            == c2.length,
{
}

} // verus!
