//! PRU-based full-duplex SPI transport for BeagleBone-class boards.
//!
//! The host and two real-time co-processor cores (one SPI master, one SPI
//! slave) communicate through a fixed-layout structure overlaid on shared
//! memory.  This crate holds the host-side protocol: the shared context and
//! its double-buffering discipline, the master and slave controller state
//! machines with their monitor-loop decisions, and the pure rules of the
//! surrounding button daemon (command classification, Klipper request
//! assembly and response interpretation).  Thread spawning, sleeping and all
//! device I/O live outside the library and drive it through these functions.

pub mod button_config;
pub mod command;
pub mod config;
pub mod firmware;
pub mod interrupts;
pub mod klipper;
pub mod lifecycle;
pub mod memory;
pub mod overlay;
pub mod pins;
pub mod pru_context;
pub mod pru_master;
pub mod pru_slave;
pub mod spi;
pub mod text;
