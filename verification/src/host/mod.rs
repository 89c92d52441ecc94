//! Decision logic of the host-side tools (tuning PC or single-board
//! computer): diagnostics, device discovery, display selection, IPC
//! framing, log playback and firmware verification.

pub mod ble;
pub mod config;
pub mod discovery;
pub mod display;
pub mod ipc;
pub mod logger;
pub mod ota;
pub mod serial_link;
pub mod text;
pub mod tuning;
