//! Run configuration, as plain values.
use vstd::prelude::*;

verus! {

/// Dynamic-DNS back-end.
#[derive(Clone, Copy, Debug, PartialEq, Eq, Structural)]
pub enum DDNSProvider {
    Cloudflare,
}

/// PROXY-protocol header version sent to the backend.
#[derive(Clone, Copy, Debug, PartialEq, Eq, Structural)]
pub enum HAProxyVersion {
    V1,
    V2,
}

/// Where and how the public address is published.
#[derive(Debug)]
pub struct DDNSConfig {
    pub provider: DDNSProvider,
    pub token: String,
    pub domain: String,
    pub sub_domain: String,
}

/// The forwarding policy: local port, backend, PROXY framing.
#[derive(Debug)]
pub struct ForwardConfig {
    pub local_port: u16,
    pub server_host: String,
    pub server_port: u16,
    pub haproxy_support: bool,
    pub haproxy_version: HAProxyVersion,
}

/// Cadence of the maintainer and the heartbeat, and the STUN server.
#[derive(Debug)]
pub struct GeneralConfig {
    pub heartbeat: u64,
    pub keep_alive: bool,
    pub stun_server_host: String,
    pub stun_server_port: u16,
}

/// The whole configuration file.
#[derive(Debug)]
pub struct BHConfig {
    pub ddns: DDNSConfig,
    pub forward: ForwardConfig,
    pub general: GeneralConfig,
}

} // verus!
