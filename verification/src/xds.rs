//! Listener descriptions, as the control plane sends them.

use crate::peers::Peers;
use vstd::prelude::*;

verus! {

/// The description of one listener.
pub struct XdsListener<P: Peers> {
    pub listener: Option<XdsListenerSpec<P>>,
}

/// The kinds of listener that a description can ask for.
pub enum XdsListenerSpec<P: Peers> {
    Sse(XdsSseListener<P>),
    Stdio,
}

/// The description of a listener that serves server-sent events.
pub struct XdsSseListener<P: Peers> {
    pub address: String,
    pub port: u32,
    pub tls: Option<XdsTlsConfig<P>>,
    pub authn: Option<XdsAuthn<P>>,
    pub rbac: Vec<P::XdsRuleSet>,
}

/// How a description asks clients to authenticate.
pub struct XdsAuthn<P: Peers> {
    pub jwt: Option<P::JwtConfig>,
}

/// Where a description says that the certificate chain and the private key are.
pub struct XdsTlsConfig<P: Peers> {
    pub cert_pem: Option<LocalDataSource<P>>,
    pub key_pem: Option<LocalDataSource<P>>,
}

/// A reference to data, which may have been left empty.
pub struct LocalDataSource<P: Peers> {
    pub source: Option<P::Source>,
}

/// A change in the set of listeners.
pub enum UpdateEvent {
    /// A listener of this name was added or replaced.
    Insert(String),
    /// The listener of this name was taken away.
    Remove(String),
}

} // verus!
