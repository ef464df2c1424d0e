use pru_spi_duplex::lifecycle::MonitorAction;
use pru_spi_duplex::pru_context::PruSpiContext;
use pru_spi_duplex::pru_master::PruSpiMaster;
use pru_spi_duplex::pru_slave::PruSpiSlave;

#[test]
fn test_master_creation() {
    let master = PruSpiMaster::new();
    assert!(!master.lifecycle.pru_inited);
    assert!(!master.lifecycle.pru_enabled);
}

#[test]
fn test_should_stop() {
    let mut master = PruSpiMaster::new();
    assert!(!master.should_stop());
    master.lifecycle.stop_requested = true;
    assert!(master.should_stop());
}

#[test]
fn unmapped_master_degrades_to_noops() {
    let mut master = PruSpiMaster::new();
    assert!(!master.is_transmission_done());
    assert_eq!(master.get_buffer(), 0);
    assert!(master.get_data().is_none());
    assert!(master.get_data_mut().is_none());
    master.start_transmission(42);
    assert!(master.context.is_none());
}

#[test]
fn init_twice_is_same_as_once() {
    let mut master = PruSpiMaster::new();
    assert!(master.init().is_ok());
    let once = master.lifecycle;
    assert!(master.init().is_ok());
    assert_eq!(master.lifecycle, once);
    assert!(master.lifecycle.pru_inited);
    assert!(master.lifecycle.pru_enabled);
}

#[test]
fn cleanup_twice_reports_no_error() {
    let mut master = PruSpiMaster::new();
    assert!(master.init().is_ok());
    master.cleanup();
    let once = master.lifecycle;
    master.cleanup();
    assert_eq!(master.lifecycle, once);
    assert!(!master.lifecycle.pru_inited);
    assert!(!master.lifecycle.pru_enabled);
}

#[test]
fn transmission_pending_until_firmware_resets_length() {
    let mut master = PruSpiMaster::new();
    master.attach_context(PruSpiContext::new());
    assert!(master.init().is_ok());

    master.start_transmission(5);
    assert!(!master.is_transmission_done());

    // The co-processor would reset the length once the send completed;
    // the test double does it directly.
    if let Some(ctx) = master.context.as_mut() {
        ctx.length = 0;
    }
    assert!(master.is_transmission_done());
}

#[test]
fn monitor_notifies_once_per_buffer_change() {
    let mut master = PruSpiMaster::new();
    master.attach_context(PruSpiContext::new());
    assert!(master.init().is_ok());
    assert!(master.start(true).is_ok());

    // Unchanged buffer: only sleeps, never notifies.
    assert_eq!(master.monitor_step(), MonitorAction::Sleep);
    assert_eq!(master.monitor_step(), MonitorAction::Sleep);

    // The co-processor swaps the buffer: exactly one notification.
    if let Some(ctx) = master.context.as_mut() {
        ctx.buffer = 1;
    }
    assert_eq!(master.monitor_step(), MonitorAction::Changed { notify: true });
    assert_eq!(master.monitor_step(), MonitorAction::Sleep);

    // After a stop request the loop is told to exit.
    master.stop();
    assert_eq!(master.monitor_step(), MonitorAction::Exit);
}

#[test]
fn restarted_monitor_observes_from_scratch() {
    let mut master = PruSpiMaster::new();
    master.attach_context(PruSpiContext::new());
    assert!(master.start(true).is_ok());
    if let Some(ctx) = master.context.as_mut() {
        ctx.buffer = 1;
    }
    assert_eq!(master.monitor_step(), MonitorAction::Changed { notify: true });
    master.stop();
    assert_eq!(master.monitor_step(), MonitorAction::Exit);

    // A restarted loop begins observing from index 0 again, so the
    // still-swapped buffer is reported once more.
    assert!(master.start(true).is_ok());
    assert_eq!(master.monitor_step(), MonitorAction::Changed { notify: true });
}

#[test]
fn monitor_rescans_while_unmapped() {
    let mut master = PruSpiMaster::new();
    assert!(master.start(false).is_ok());
    assert_eq!(master.monitor_step(), MonitorAction::Rescan);
}

#[test]
fn monitor_without_callback_does_not_notify() {
    let mut master = PruSpiMaster::new();
    master.attach_context(PruSpiContext::new());
    assert!(master.start(false).is_ok());
    if let Some(ctx) = master.context.as_mut() {
        ctx.buffer = 1;
    }
    assert_eq!(master.monitor_step(), MonitorAction::Changed { notify: false });
}

#[test]
fn master_transmission_end_to_end() {
    let mut master = PruSpiMaster::new();
    master.attach_context(PruSpiContext::new());
    assert!(master.init().is_ok());

    // The master writes a 512-byte frame into the active buffer.
    {
        let buf = master.get_data_mut().expect("context is mapped");
        for i in 0..512 {
            buf[i] = (i % 256) as u8;
        }
    }
    master.start_transmission(512);
    assert!(!master.is_transmission_done());

    // The poll loop runs until the test double firmware, after a few
    // intervals, copies the frame and resets the length.
    let mut polls = 0;
    while master.should_keep_waiting() {
        polls += 1;
        if polls == 3 {
            if let Some(ctx) = master.context.as_mut() {
                ctx.length = 0;
            }
        }
        assert!(polls < 10, "wait did not finish within a few polls");
    }
    assert!(master.is_transmission_done());
    let data = master.get_data().expect("context is mapped");
    assert_eq!(data[511], 255);

    master.shutdown();
    assert!(!master.lifecycle.pru_inited);
    assert!(!master.lifecycle.loop_running);
}

#[test]
fn slave_reception_end_to_end() {
    let mut slave = PruSpiSlave::new();
    slave.attach_context(PruSpiContext::new());
    assert!(slave.init().is_ok());

    slave.enable_receive(512);
    assert!(!slave.is_transmission_done());

    // The test double firmware writes a 300-byte frame and reports it.
    let mut polls = 0;
    while slave.should_keep_waiting() {
        polls += 1;
        if polls == 2 {
            if let Some(ctx) = slave.context.as_mut() {
                let buf = ctx.get_buffer_mut();
                for i in 0..300 {
                    buf[i] = 0x11;
                }
                ctx.length = 300;
                ctx.slave_max_transmission_length = 0;
            }
        }
        assert!(polls < 10, "wait did not finish within a few polls");
    }
    assert!(slave.is_transmission_done());
    assert_eq!(slave.get_last_transmission_length(), 300);
    assert_ne!(slave.get_last_transmission_length(), 512);
    let data = slave.get_data().expect("context is mapped");
    assert_eq!(data[299], 0x11);
}

#[test]
fn external_stop_halts_waiting_and_monitor() {
    let mut slave = PruSpiSlave::new();
    slave.attach_context(PruSpiContext::new());
    slave.enable_receive(16);
    assert!(slave.should_keep_waiting());
    slave.lifecycle.external_stop_requested = true;
    assert!(!slave.should_keep_waiting());
    assert_eq!(slave.monitor_step(), MonitorAction::Exit);
}

#[test]
fn stop_clears_callback_and_start_reinstalls() {
    let mut master = PruSpiMaster::new();
    assert!(master.start(true).is_ok());
    assert!(master.lifecycle.callback_installed);
    master.stop();
    assert!(master.lifecycle.stop_requested);
    assert!(!master.lifecycle.callback_installed);
    assert!(master.start(false).is_ok());
    assert!(!master.lifecycle.stop_requested);
    assert!(!master.lifecycle.callback_installed);
    assert!(master.wait().is_ok());
    assert!(!master.lifecycle.loop_running);
}

#[test]
fn detach_returns_the_context() {
    let mut slave = PruSpiSlave::new();
    let mut ctx = PruSpiContext::new();
    ctx.length = 9;
    slave.attach_context(ctx);
    assert_eq!(slave.get_last_transmission_length(), 9);
    let back = slave.detach_context().expect("context was mapped");
    assert_eq!(back.length, 9);
    assert!(slave.context.is_none());
}
