//! Data-plane core of a TCP/UDP-over-QUIC tunnel: datagram framing, the
//! byte pump and its idle/stuck arbitration, the ingress driver's pending
//! slot and the per-peer UDP session map.

pub mod frame;
pub mod pump;
pub mod driver;
pub mod udp;
pub mod session_map;
