//! Configuration of the button daemon.
//!
//! The structures are plain data; the daemon around the library reads
//! them from a YAML file and hands them over as values.

use vstd::prelude::*;

verus! {

/// Top-level configuration of the button daemon.
#[derive(Debug, Clone)]
pub struct Config {
    /// The SPI device the button controller drives.
    pub spi: SpiConfig,
    /// Polling cadence.
    pub polling: PollingConfig,
    /// The buttons and the commands they trigger.
    pub buttons: Vec<ButtonMapping>,
    /// Klipper API access, when commands are dispatched there.
    pub klipper: Option<KlipperConfig>,
}

/// The SPI device and its bus parameters.
#[derive(Debug, Clone)]
pub struct SpiConfig {
    /// Device node path.
    pub device: String,
    /// Bus clock in hertz.
    pub speed_hz: u32,
    /// SPI mode (0 to 3).
    pub mode: u8,
}

/// Polling cadence.
#[derive(Debug, Clone)]
pub struct PollingConfig {
    /// Milliseconds between polls.
    pub interval_ms: u64,
}

/// Access to the Klipper API server.
#[derive(Debug, Clone)]
pub struct KlipperConfig {
    /// Base URL of the API server.
    pub base_url: String,
    /// Optional API key, when the server requires one.
    pub api_key: Option<String>,
    /// Path of the Unix domain socket commands are sent over.
    pub socket_path: String,
}

/// One button and the command it triggers.
#[derive(Debug, Clone)]
pub struct ButtonMapping {
    /// The button's position.
    pub button: u8,
    /// Behaviour flags for the button, if configured.
    pub config: Option<u8>,
    /// Optional description for logs.
    pub description: Option<String>,
    /// The command the button triggers.
    pub command: String,
}

impl ButtonMapping {
    /// The behaviour flags the button is created with: the configured
    /// value, or the given default where none is configured.
    pub fn config_value(&self, default_config: u8) -> (r: u8)
        ensures
            r == (match self.config {
                Some(v) => v,
                None => default_config,
            }),
    {
        match self.config {
            Some(v) => v,
            None => default_config,
        }
    }
}

/// Whether the buttons are listed under their own ids: the mapping at
/// position `i` is for button `i`.  The daemon looks a button's mapping
/// up by its id, so ids must be consecutive from zero once the list is
/// sorted.
pub fn button_ids_consecutive(buttons: &Vec<ButtonMapping>) -> (r: bool)
    ensures
        r <==> (forall|i: int|
            0 <= i < buttons@.len() ==> #[trigger] buttons@[i].button as int == i),
{
    let mut i: usize = 0;
    while i < buttons.len()
        invariant
            i <= buttons@.len(),
            forall|j: int| 0 <= j < i ==> #[trigger] buttons@[j].button as int == j,
        decreases buttons@.len() - i,
    {
        if buttons[i].button as usize != i {
            assert(buttons@[i as int].button as int != i as int);
            return false;
        }
        i = i + 1;
    }
    true
}

impl Default for Config {
    /// The fallback configuration: the first SPI device at one megahertz
    /// in mode 0, polled every 100 ms, with no buttons and no Klipper
    /// access configured.
    fn default() -> (r: Self)
        ensures
            r.spi.device@ == "/dev/spidev0.0"@,
            r.spi.speed_hz == 1000000,
            r.spi.mode == 0,
            r.polling.interval_ms == 100,
            r.buttons@.len() == 0,
            r.klipper is None,
    {
        Config {
            spi: SpiConfig {
                device: "/dev/spidev0.0".to_owned(),
                speed_hz: 1000000,
                mode: 0,
            },
            polling: PollingConfig { interval_ms: 100 },
            buttons: Vec::new(),
            klipper: None,
        }
    }
}

} // verus!
