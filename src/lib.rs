//! A self-hosted TCP reverse tunnel for game servers behind a NAT: STUN
//! mapping discovery, DNS publication of the public address, a heartbeat
//! through the NAT, and forwarding with PROXY-protocol framing. This crate
//! holds the verified codecs and decisions; the caller performs the I/O.
pub mod addr;
pub mod config;
pub mod ddns;
pub mod forward;
pub mod proxy;
pub mod stun;
pub mod supervise;
