use pru_spi_duplex::pru_context::PruSpiContext;
use pru_spi_duplex::pru_context::PRU_DATA_BUFFER_SIZE;

#[test]
fn test_context_size() {
    // Verify the memory layout is correct for PRU communication
    let size = PruSpiContext::size();
    assert!(size > 0);
}

#[test]
fn test_buffer_access() {
    let mut ctx = PruSpiContext::new();
    ctx.buffer = 0;
    let buf = ctx.get_buffer_mut();
    assert_eq!(buf.len(), PRU_DATA_BUFFER_SIZE);

    ctx.buffer = 1;
    let buf = ctx.get_buffer_mut();
    assert_eq!(buf.len(), PRU_DATA_BUFFER_SIZE);
}

#[test]
fn test_context_reset() {
    let mut ctx = PruSpiContext::new();
    ctx.length = 100;
    ctx.buffer = 1;
    ctx.reset();
    assert_eq!(ctx.length, 0);
    assert_eq!(ctx.buffer, 0);
}

#[test]
fn reset_zeroes_everything() {
    let mut ctx = PruSpiContext::new();
    ctx.buffer = 1;
    ctx.length = 77;
    ctx.slave_max_transmission_length = 33;
    {
        let buf = ctx.get_buffer_mut();
        for i in 0..buf.len() {
            buf[i] = 0xAB;
        }
    }
    ctx.buffer = 0;
    {
        let buf = ctx.get_buffer_mut();
        for i in 0..buf.len() {
            buf[i] = 0xCD;
        }
    }
    ctx.reset();
    assert_eq!(ctx.buffer, 0);
    assert_eq!(ctx.length, 0);
    assert_eq!(ctx.slave_max_transmission_length, 0);
    assert!(ctx.buffers.0.iter().all(|b| *b == 0));
    assert!(ctx.buffers.1.iter().all(|b| *b == 0));
}

#[test]
fn buffer_index_fallback_to_region_zero() {
    let mut ctx = PruSpiContext::new();
    ctx.buffers.0[0] = 0x5A;
    ctx.buffers.1[0] = 0xA5;

    ctx.buffer = 0;
    assert_eq!(ctx.get_buffer().len(), PRU_DATA_BUFFER_SIZE);
    assert_eq!(ctx.get_buffer()[0], 0x5A);

    ctx.buffer = 1;
    assert_eq!(ctx.get_buffer().len(), PRU_DATA_BUFFER_SIZE);
    assert_eq!(ctx.get_buffer()[0], 0xA5);

    // An out-of-range index falls back to region 0 instead of indexing
    // out of bounds.
    ctx.buffer = 7;
    assert_eq!(ctx.get_buffer().len(), PRU_DATA_BUFFER_SIZE);
    assert_eq!(ctx.get_buffer()[0], 0x5A);
    let buf = ctx.get_buffer_mut();
    assert_eq!(buf.len(), PRU_DATA_BUFFER_SIZE);
    assert_eq!(buf[0], 0x5A);
}

#[test]
fn default_is_reset_state() {
    let ctx = PruSpiContext::default();
    assert_eq!(ctx.buffer, 0);
    assert_eq!(ctx.length, 0);
    assert_eq!(ctx.slave_max_transmission_length, 0);
    assert!(ctx.buffers.0.iter().all(|b| *b == 0));
    assert!(ctx.buffers.1.iter().all(|b| *b == 0));
}
