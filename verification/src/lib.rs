//! Verified core logic of the Oxide engine-management stack: diagnostic
//! services, MQTT packet framing, crank-trigger decoding, angular event
//! scheduling, relay autotuning, calibration-table bookkeeping, hardware
//! abstraction traits with their mock implementations and the DMA serial
//! transport's queues, target memory layouts, and the host tools' device
//! selection, IPC framing, log playback and firmware signature checks.

pub mod autotuner;
pub mod bounded;
pub mod build_memory_maps;
pub mod esp32_hmi;
pub mod hal;
pub mod host;
pub mod memory_maps;
pub mod knock;
pub mod mqtt;
pub mod renesas_ra8;
pub mod scheduler;
pub mod serial_transport;
pub mod storage;
pub mod table;
pub mod telemetry;
pub mod trigger_decoder;
pub mod uds;
