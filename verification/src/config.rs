//! Configuration of the register-polling duplex setup.
//!
//! The structures are plain data; the daemon around the library reads
//! them from a YAML file and hands them over as values.

use vstd::prelude::*;

verus! {

/// Top-level configuration.
#[derive(Debug, Clone)]
pub struct Config {
    /// The SPI device to poll.
    pub spi: SpiConfig,
    /// Polling cadence.
    pub polling: PollingConfig,
    /// The registers to watch and what to run on their values.
    pub registers: Vec<RegisterMapping>,
}

/// The SPI device and its bus parameters.
#[derive(Debug, Clone)]
pub struct SpiConfig {
    /// Device node path.
    pub device: String,
    /// Bus number.
    pub bus: u32,
    /// Chip select line.
    pub chip_select: u32,
    /// Bus clock in hertz.
    pub speed_hz: u32,
    /// SPI mode (0 to 3).
    pub mode: u8,
}

/// Polling cadence.
#[derive(Debug, Clone)]
pub struct PollingConfig {
    /// Milliseconds between polls.
    pub interval_ms: u64,
    /// Milliseconds a value must hold to count.
    pub debounce_ms: u64,
}

/// One watched register and its triggers.
#[derive(Debug, Clone)]
pub struct RegisterMapping {
    /// Address of the register.
    pub register_address: u8,
    /// Human-readable name.
    pub name: String,
    /// The values that trigger commands.
    pub value_triggers: Vec<ValueTrigger>,
}

/// One value (under an optional mask) and the command it triggers.
#[derive(Debug, Clone)]
pub struct ValueTrigger {
    /// The value that triggers.
    pub value: u8,
    /// Mask applied to the read value before comparing, if any.
    pub mask: Option<u8>,
    /// The shell command to run.
    pub command: String,
    /// Optional description for logs.
    pub description: Option<String>,
}

impl ValueTrigger {
    /// Whether a read register value matches this trigger: the value is
    /// compared under the mask when one is configured, plainly
    /// otherwise.
    pub fn matches_value(&self, read: u8) -> (r: bool)
        ensures
            r == (match self.mask {
                Some(m) => (read & m) == self.value,
                None => read == self.value,
            }),
    {
        match self.mask {
            Some(m) => (read & m) == self.value,
            None => read == self.value,
        }
    }
}

impl Default for Config {
    /// The fallback configuration: the first SPI device at one megahertz
    /// in mode 0, polled every 100 ms with 50 ms debounce, and no
    /// registers watched.
    fn default() -> (r: Self)
        ensures
            r.spi.device@ == "/dev/spidev0.0"@,
            r.spi.bus == 0,
            r.spi.chip_select == 0,
            r.spi.speed_hz == 1000000,
            r.spi.mode == 0,
            r.polling.interval_ms == 100,
            r.polling.debounce_ms == 50,
            r.registers@.len() == 0,
    {
        Config {
            spi: SpiConfig {
                device: "/dev/spidev0.0".to_owned(),
                bus: 0,
                chip_select: 0,
                speed_hz: 1000000,
                mode: 0,
            },
            polling: PollingConfig { interval_ms: 100, debounce_ms: 50 },
            registers: Vec::new(),
        }
    }
}

} // verus!
