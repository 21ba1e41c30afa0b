//! Wireless-network management: one control session per operation against the local
//! network-control daemon.

pub mod errors;
pub mod listener;
pub mod network;
pub mod request;
pub mod sequence;
pub mod session;
pub mod wifi;
