//! Host-side protocol core for a serial firmware updater.
//!
//! The device drives a small request/response protocol: after a handshake,
//! it issues 16-byte command frames (check-update, request-data-chunk,
//! report-status) that the host answers until the device signals completion.
//! This crate holds the verified core: the additive checksum, the fixed-layout
//! frame codec, the scanner that locates frames in a raw byte stream, and the
//! protocol state machine. The transport, the firmware image storage and the
//! configuration file are collaborators owned by the surrounding driver.

pub mod checksum;
pub mod config;
pub mod frame;
pub mod scanner;
pub mod session;

pub use checksum::updater_calc_crc;
