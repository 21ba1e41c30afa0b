//! Verified control logic for an edge device: the wireless-network control-session
//! coordinator, and the rules of the small hardware controllers that sit beside it.
//!
//! Nothing here performs I/O. Every function takes plain values and returns plain
//! values, so that a thin shell can own the sockets, files and subprocesses while the
//! decisions are proved once and for all.

pub mod battery_ctrl;
pub mod bluetooth_manager;
pub mod cpu_governor_ctrl;
pub mod device_info;
pub mod display_ctrl;
pub mod file;
pub mod led_ctrl;
pub mod metrics;
pub mod motion_sensor;
pub mod network_manager;
pub mod text;
pub mod trustzone_ctrl;
