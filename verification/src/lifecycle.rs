//! The session lifecycle shared by the master and slave controllers.
//!
//! A controller moves through `init` (load the co-processor program),
//! `start` (spawn the monitor loop), `stop` (request the loop to exit),
//! `wait` (join it) and `cleanup` (release driver resources).  The flags
//! here record that progress, together with the two cooperative stop
//! flags and the monitor loop's last observed buffer index.  The caller
//! that owns the real thread drives the loop by calling [`ControllerLifecycle::observe`]
//! once per iteration and performing the returned action.

use vstd::prelude::*;

verus! {

/// Errors a controller can report.  The verified transitions themselves
/// never fail; the surrounding runtime constructs these when a thread
/// join or a hardware-binding call goes wrong.
#[derive(Clone, Copy, Debug, PartialEq, Eq, Structural)]
pub enum ControllerError {
    /// The monitor thread could not be joined.
    ThreadJoin,
    /// A co-processor driver call (map, load, unload) failed.
    HardwareBinding,
}

/// What one monitor-loop iteration asks its caller to do.
#[derive(Clone, Copy, Debug, PartialEq, Eq, Structural)]
pub enum MonitorAction {
    /// A stop was requested: leave the loop.
    Exit,
    /// No context is mapped yet: look again at once.
    Rescan,
    /// The buffer index is unchanged: sleep one poll interval.
    Sleep,
    /// The buffer index changed; invoke the registered callback
    /// exactly when `notify` is true.
    Changed { notify: bool },
}

/// The flags of one controller's session lifecycle.
#[derive(Clone, Copy, Debug, PartialEq, Eq, Structural)]
pub struct ControllerLifecycle {
    /// The co-processor driver has been initialised.
    pub pru_inited: bool,
    /// The co-processor program has been loaded and enabled.
    pub pru_enabled: bool,
    /// A monitor loop has been started and not yet joined.
    pub loop_running: bool,
    /// The controller's own stop flag, set by `stop`.
    pub stop_requested: bool,
    /// An externally supplied stop flag, shared for process-wide shutdown.
    pub external_stop_requested: bool,
    /// A callback is registered for buffer-change notifications.
    pub callback_installed: bool,
    /// The buffer index the monitor loop last observed.
    pub last_buffer: u32,
}

impl ControllerLifecycle {
    /// The state of a freshly constructed controller.
    pub open spec fn initial() -> Self {
        ControllerLifecycle {
            pru_inited: false,
            pru_enabled: false,
            loop_running: false,
            stop_requested: false,
            external_stop_requested: false,
            callback_installed: false,
            last_buffer: 0,
        }
    }

    /// Effect of `init`: driver initialised and program enabled, whatever
    /// was already done.
    pub open spec fn init_spec(self) -> Self {
        ControllerLifecycle { pru_inited: true, pru_enabled: true, ..self }
    }

    /// Effect of `start`: the stop request is cleared, the monitor loop
    /// is running with its observation reset to buffer index 0, and a
    /// callback passed here is installed (passing none keeps one
    /// installed earlier).
    pub open spec fn start_spec(self, install_callback: bool) -> Self {
        ControllerLifecycle {
            stop_requested: false,
            loop_running: true,
            callback_installed: install_callback || self.callback_installed,
            last_buffer: 0,
            ..self
        }
    }

    /// Effect of `stop`: the loop is asked to exit and the callback slot
    /// is cleared.  It does not block.
    pub open spec fn stop_spec(self) -> Self {
        ControllerLifecycle { stop_requested: true, callback_installed: false, ..self }
    }

    /// Effect of `wait`: the monitor loop has been joined.
    pub open spec fn wait_spec(self) -> Self {
        ControllerLifecycle { loop_running: false, ..self }
    }

    /// Effect of `cleanup`: driver resources are released and the
    /// callback slot is cleared.
    pub open spec fn cleanup_spec(self) -> Self {
        ControllerLifecycle {
            pru_inited: false,
            pru_enabled: false,
            callback_installed: false,
            ..self
        }
    }

    /// Either stop flag asks the monitor loop to exit.
    pub open spec fn should_stop_spec(self) -> bool {
        self.stop_requested || self.external_stop_requested
    }

    /// One monitor-loop decision: what to do given the currently mapped
    /// buffer index (`None` while no context is mapped), and the
    /// lifecycle state after it.
    pub open spec fn observe_spec(self, current: Option<u32>) -> (MonitorAction, Self) {
        if self.should_stop_spec() {
            (MonitorAction::Exit, self)
        } else {
            match current {
                None => (MonitorAction::Rescan, self),
                Some(cur) => {
                    if cur == self.last_buffer {
                        (MonitorAction::Sleep, self)
                    } else {
                        (
                            MonitorAction::Changed { notify: self.callback_installed },
                            ControllerLifecycle { last_buffer: cur, ..self },
                        )
                    }
                },
            }
        }
    }

    /// Flags of a freshly constructed controller.
    pub fn new() -> (r: Self)
        ensures
            r == Self::initial(),
    {
        ControllerLifecycle {
            pru_inited: false,
            pru_enabled: false,
            loop_running: false,
            stop_requested: false,
            external_stop_requested: false,
            callback_installed: false,
            last_buffer: 0,
        }
    }

    /// Record a completed `init`.
    pub fn init_step(&mut self)
        ensures
            *final(self) == old(self).init_spec(),
    {
        if !self.pru_inited {
            self.pru_inited = true;
        }
        if !self.pru_enabled {
            self.pru_enabled = true;
        }
    }

    /// Record a completed `start`.
    pub fn start_step(&mut self, install_callback: bool)
        ensures
            *final(self) == old(self).start_spec(install_callback),
    {
        if install_callback {
            self.callback_installed = true;
        }
        self.stop_requested = false;
        self.loop_running = true;
        self.last_buffer = 0;
    }

    /// Record a `stop` request.
    pub fn stop_step(&mut self)
        ensures
            *final(self) == old(self).stop_spec(),
    {
        self.stop_requested = true;
        self.callback_installed = false;
    }

    /// Record a completed `wait`.
    pub fn wait_step(&mut self)
        ensures
            *final(self) == old(self).wait_spec(),
    {
        self.loop_running = false;
    }

    /// Record a completed `cleanup`.
    pub fn cleanup_step(&mut self)
        ensures
            *final(self) == old(self).cleanup_spec(),
    {
        if self.pru_enabled {
            self.pru_enabled = false;
        }
        if self.pru_inited {
            self.pru_inited = false;
        }
        self.callback_installed = false;
    }

    /// Whether either stop flag is set.
    pub fn should_stop(&self) -> (r: bool)
        ensures
            r == self.should_stop_spec(),
    {
        self.stop_requested || self.external_stop_requested
    }

    /// Take one monitor-loop decision over the currently observed buffer
    /// index and update the last observed value accordingly.
    pub fn observe(&mut self, current: Option<u32>) -> (a: MonitorAction)
        ensures
            (a, *final(self)) == old(self).observe_spec(current),
    {
        if self.should_stop() {
            MonitorAction::Exit
        } else {
            match current {
                None => MonitorAction::Rescan,
                Some(cur) => {
                    if cur == self.last_buffer {
                        MonitorAction::Sleep
                    } else {
                        self.last_buffer = cur;
                        MonitorAction::Changed { notify: self.callback_installed }
                    }
                },
            }
        }
    }
}

/// Initialising a controller twice leaves it in the same state as
/// initialising it once, and the same holds for releasing it twice:
/// both `init` and `cleanup` are idempotent.
pub proof fn lemma_init_cleanup_idempotent(l: ControllerLifecycle)
    ensures
        l.init_spec().init_spec() == l.init_spec(),
        l.cleanup_spec().cleanup_spec() == l.cleanup_spec(),
{
}

/// The monitor loop notifies exactly once per observed change of the
/// buffer index: while the index is unchanged it only sleeps and keeps
/// its state, and after a change is reported once, observing the same
/// index again no longer reports it.
pub proof fn lemma_monitor_notifies_once_per_change(l: ControllerLifecycle, cur: u32)
    requires
        !l.should_stop_spec(),
    ensures
        cur == l.last_buffer ==> l.observe_spec(Some(cur))
            == (MonitorAction::Sleep, l),
        cur != l.last_buffer ==> l.observe_spec(Some(cur)).0
            == (MonitorAction::Changed { notify: l.callback_installed }),
        cur != l.last_buffer ==> l.observe_spec(Some(cur)).1.observe_spec(Some(cur))
            == (MonitorAction::Sleep, l.observe_spec(Some(cur)).1),
{
}

} // verus!
