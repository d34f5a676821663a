//! Publication of the public address as DNS records, behind a capability
//! with one back-end today (Cloudflare).
use vstd::prelude::*;

pub mod cloudflare;

use crate::config::{DDNSConfig, DDNSProvider};
use cloudflare::{Provider, SessionView, UpdateSession};

verus! {

/// The publishing capability: given `(host, port)`, upsert an A record and a
/// Minecraft SRV record. Publishing is a session of HTTP exchanges that the
/// caller drives; this starts it.
pub trait DynamicDns {
    /// The session that publishing `host:port` starts with.
    spec fn update_view(&self, host: Seq<char>, port: u16) -> SessionView;

    /// Starts publishing `host:port`.
    fn update_srv(&self, host: &str, port: u16) -> (r: UpdateSession)
        ensures
            r.wf(),
            r@ == self.update_view(host@, port),
    ;
}

/// The configured publisher.
#[derive(Debug)]
pub enum Publisher {
    Cloudflare(Provider),
}

impl DynamicDns for Publisher {
    open spec fn update_view(&self, host: Seq<char>, port: u16) -> SessionView {
        match self {
            Publisher::Cloudflare(p) => p.update_view(host, port),
        }
    }

    fn update_srv(&self, host: &str, port: u16) -> (r: UpdateSession) {
        match self {
            Publisher::Cloudflare(p) => p.update_srv(host, port),
        }
    }
}

/// Builds the publisher that the configuration names.
pub fn init(config: DDNSConfig) -> (r: Publisher)
    ensures
        r matches Publisher::Cloudflare(p) && p.token@ == config.token@ && p.domain@ == config.domain@
            && p.sub_domain@ == config.sub_domain@,
{
    match config.provider {
        DDNSProvider::Cloudflare => Publisher::Cloudflare(Provider::new(config)),
    }
}

} // verus!
