//! A software-only point-to-point Ethernet link between two virtual network
//! devices: frame decoding for diagnostics, an IP-style checksum engine,
//! in-place address mutation of outbound frames, and the paired-device
//! transmit-interception and lifecycle logic.

pub mod checksum;
pub mod decode;
pub mod device;
pub mod frame;
pub mod mutate;
