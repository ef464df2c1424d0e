//! The SPI master controller.
//!
//! The master owns the host-side view of one mapped [`PruSpiContext`],
//! drives outgoing transmissions by writing the `length` field, and takes
//! the monitor-loop decisions that detect a buffer swap performed by the
//! co-processor.  The context is installed after construction by whoever
//! owns the memory mapping; every operation degrades to a no-op or a
//! default value while no context is mapped, so the controller is safe to
//! call before and after the hardware is attached.  Thread spawning,
//! joining and sleeping are the caller's: the methods here record the
//! lifecycle transitions and decide, they never block.

use vstd::prelude::*;

use crate::lifecycle::ControllerError;
use crate::lifecycle::ControllerLifecycle;
use crate::lifecycle::MonitorAction;
use crate::pru_context::PRU_DATA_BUFFER_SIZE;
use crate::pru_context::PruSpiContext;

verus! {

/// Host-side controller for the SPI master core.
pub struct PruSpiMaster {
    /// Session lifecycle flags shared with the slave controller's design.
    pub lifecycle: ControllerLifecycle,
    /// The mapped shared context, once the hardware binding installed it.
    pub context: Option<PruSpiContext>,
}

impl PruSpiMaster {
    /// A context is mapped.
    pub open spec fn is_mapped(self) -> bool {
        self.context is Some
    }

    /// The buffer index the mapped context currently shows; 0 while
    /// unmapped.
    pub open spec fn current_buffer_spec(self) -> u32 {
        match self.context {
            Some(c) => c.buffer,
            None => 0u32,
        }
    }

    /// A transmission is complete exactly when a context is mapped and
    /// its `length` field has been returned to zero by the co-processor.
    pub open spec fn transmission_done_spec(self) -> bool {
        match self.context {
            Some(c) => c.length == 0,
            None => false,
        }
    }

    /// Effect of `start_transmission`: the requested length is written
    /// into the mapped context, and nothing happens while unmapped.
    pub open spec fn start_transmission_spec(self, length: u32) -> Self {
        match self.context {
            Some(c) => PruSpiMaster {
                context: Some(PruSpiContext { length, ..c }),
                ..self
            },
            None => self,
        }
    }

    /// Create a new controller with nothing initialised and no context
    /// mapped.
    pub fn new() -> (r: Self)
        ensures
            r.lifecycle == ControllerLifecycle::initial(),
            r.context is None,
    {
        PruSpiMaster { lifecycle: ControllerLifecycle::new(), context: None }
    }

    /// Install the mapped shared context.  The memory mapping itself is
    /// owned by the hardware binding; the controller only holds the
    /// host-side view it is handed here.
    pub fn attach_context(&mut self, ctx: PruSpiContext)
        ensures
            final(self).context == Some(ctx),
            final(self).lifecycle == old(self).lifecycle,
    {
        self.context = Some(ctx);
    }

    /// Hand the context back for unmapping at shutdown.
    pub fn detach_context(&mut self) -> (r: Option<PruSpiContext>)
        ensures
            r == old(self).context,
            final(self).context is None,
            final(self).lifecycle == old(self).lifecycle,
    {
        self.context.take()
    }

    /// Initialise the co-processor driver and enable the program.
    /// Calling it when already initialised is a no-op that still
    /// succeeds.
    pub fn init(&mut self) -> (r: Result<(), ControllerError>)
        ensures
            final(self).lifecycle == old(self).lifecycle.init_spec(),
            final(self).context == old(self).context,
            r is Ok,
    {
        self.lifecycle.init_step();
        Ok(())
    }

    /// Start the monitor loop, installing a callback when one is
    /// provided and keeping any installed earlier.  The caller spawns
    /// the thread that repeatedly calls [`PruSpiMaster::monitor_step`].
    pub fn start(&mut self, install_callback: bool) -> (r: Result<(), ControllerError>)
        ensures
            final(self).lifecycle == old(self).lifecycle.start_spec(install_callback),
            final(self).context == old(self).context,
            r is Ok,
    {
        self.lifecycle.start_step(install_callback);
        Ok(())
    }

    /// Ask the monitor loop to exit and clear the callback slot.  This
    /// does not block.
    pub fn stop(&mut self)
        ensures
            final(self).lifecycle == old(self).lifecycle.stop_spec(),
            final(self).context == old(self).context,
    {
        self.lifecycle.stop_step();
    }

    /// Record that the monitor loop has been joined.  The caller that
    /// owns the thread performs the join and reports a failure as
    /// [`ControllerError::ThreadJoin`].
    pub fn wait(&mut self) -> (r: Result<(), ControllerError>)
        ensures
            final(self).lifecycle == old(self).lifecycle.wait_spec(),
            final(self).context == old(self).context,
            r is Ok,
    {
        self.lifecycle.wait_step();
        Ok(())
    }

    /// Release driver resources.  Safe to call any number of times.
    pub fn cleanup(&mut self)
        ensures
            final(self).lifecycle == old(self).lifecycle.cleanup_spec(),
            final(self).context == old(self).context,
    {
        self.lifecycle.cleanup_step();
    }

    /// Destruction path: request a stop, consider the loop joined, and
    /// release resources, in that order, regardless of prior state.
    pub fn shutdown(&mut self)
        ensures
            final(self).lifecycle
                == old(self).lifecycle.stop_spec().wait_spec().cleanup_spec(),
            final(self).context == old(self).context,
    {
        self.stop();
        let _ = self.wait();
        self.cleanup();
    }

    /// A transmission is complete: a context is mapped and its length
    /// field is back to zero.
    pub fn is_transmission_done(&self) -> (r: bool)
        ensures
            r == self.transmission_done_spec(),
    {
        match &self.context {
            Some(c) => c.length == 0,
            None => false,
        }
    }

    /// The buffer index the mapped context currently shows; 0 while
    /// unmapped.
    pub fn get_buffer(&self) -> (r: u32)
        ensures
            r == self.current_buffer_spec(),
    {
        match &self.context {
            Some(c) => c.buffer,
            None => 0,
        }
    }

    /// Request a transmission of `length` bytes by writing the length
    /// field of the mapped context; silently ignored while unmapped.
    /// The write only requests the send, it does not block.
    pub fn start_transmission(&mut self, length: u32)
        ensures
            *final(self) == old(self).start_transmission_spec(length),
    {
        match &mut self.context {
            Some(c) => {
                c.length = length;
            },
            None => {},
        }
    }

    /// The poll loop that waits for a transmission keeps polling while
    /// no stop was requested and the transmission is not done.  The
    /// caller sleeps one interval between polls; the timeout it applies
    /// is its own, best-effort bound.
    pub fn should_keep_waiting(&self) -> (r: bool)
        ensures
            r == (!self.lifecycle.should_stop_spec() && !self.transmission_done_spec()),
    {
        !self.lifecycle.should_stop() && !self.is_transmission_done()
    }

    /// Immutable view of the active data region of the mapped context;
    /// nothing while unmapped.
    pub fn get_data(&self) -> (r: Option<&Vec<u8>>)
        ensures
            r is Some <==> self.context is Some,
            r matches Some(b) ==> ({
                &&& self.context matches Some(c)
                &&& b@ == c.active_region()
                &&& c.wf() ==> b@.len() == PRU_DATA_BUFFER_SIZE
            }),
    {
        match &self.context {
            Some(c) => Some(c.get_buffer()),
            None => None,
        }
    }

    /// Mutable view of the active data region of the mapped context;
    /// nothing while unmapped.  Only the selected region of the context
    /// can change through the returned reference.
    pub fn get_data_mut(&mut self) -> (r: Option<&mut Vec<u8>>)
        ensures
            r is Some <==> old(self).context is Some,
            old(self).context is None ==> *final(self) == *old(self),
            r matches Some(b) ==> ({
                &&& old(self).context matches Some(c)
                &&& (*b)@ == c.active_region()
                &&& final(self).lifecycle == old(self).lifecycle
                &&& final(self).context matches Some(c2)
                &&& c2.buffer == c.buffer
                &&& c2.length == c.length
                &&& c2.slave_max_transmission_length == c.slave_max_transmission_length
                &&& if c.buffer == 1 {
                    c2.buffers == (c.buffers.0, *final(b))
                } else {
                    c2.buffers == (*final(b), c.buffers.1)
                }
            }),
    {
        match &mut self.context {
            Some(c) => Some(c.get_buffer_mut()),
            None => None,
        }
    }

    /// Take one monitor-loop decision: exit on a stop request, rescan
    /// while unmapped, sleep while the buffer index is unchanged, and
    /// report a change (notifying exactly when a callback is installed)
    /// after recording the newly observed index.
    pub fn monitor_step(&mut self) -> (a: MonitorAction)
        ensures
            (a, final(self).lifecycle)
                == old(self).lifecycle.observe_spec(old(self).observed_buffer_spec()),
            final(self).context == old(self).context,
    {
        let current = match &self.context {
            Some(c) => Some(c.buffer),
            None => None,
        };
        self.lifecycle.observe(current)
    }

    /// What the monitor loop observes: the mapped context's buffer
    /// index, or nothing while unmapped.
    pub open spec fn observed_buffer_spec(self) -> Option<u32> {
        match self.context {
            Some(c) => Some(c.buffer),
            None => None,
        }
    }

    /// Whether either stop flag asks the monitor loop to exit.
    pub fn should_stop(&self) -> (r: bool)
        ensures
            r == self.lifecycle.should_stop_spec(),
    {
        self.lifecycle.should_stop()
    }
}

impl Default for PruSpiMaster {
    fn default() -> (r: Self)
        ensures
            r.lifecycle == ControllerLifecycle::initial(),
            r.context is None,
    {
        Self::new()
    }
}

/// After a transmission of a positive length is requested on a mapped
/// controller, the transmission is not done, and it stays not done until
/// the co-processor (or a test double standing in for it) returns the
/// length field to zero, which is exactly when it is done again.
pub proof fn lemma_start_transmission_blocks_done(m: PruSpiMaster, n: u32, c2: PruSpiContext)
    requires
        m.is_mapped(),
        n > 0,
    ensures
        !m.start_transmission_spec(n).transmission_done_spec(),
        (PruSpiMaster { context: Some(c2), ..m }).transmission_done_spec()
            <==> c2.length == 0,
{
}

} // verus!
