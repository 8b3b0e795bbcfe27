//! Firmware flashing over USB DFU: the verified core.
//!
//! The crate reduces an ELF executable to the flat byte stream a device
//! needs, decides how a bounded search for a matching USB device proceeds,
//! and classifies the outcome of a firmware transfer.
pub mod chips;
pub mod elf;
pub mod error;
pub mod flash;
pub mod image;
pub mod image_laws;
pub mod locator;
pub mod locator_laws;
pub mod options;
