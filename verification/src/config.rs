//! What a server is configured with before it runs.

use rustls::ServerConfig;
use std::sync::Arc;
use tokio_rustls::TlsAcceptor;
use vstd::prelude::*;

use crate::pool::max_capacity;
use crate::pool::AdmissionPool;
use crate::server::Server;

verus! {

/// `rustls::ServerConfig`, carried through as an opaque value.
#[verifier::external_type_specification]
#[verifier::external_body]
pub struct ExServerConfig(ServerConfig);

/// `tokio_rustls::TlsAcceptor`, carried through as an opaque value.
#[verifier::external_type_specification]
#[verifier::external_body]
pub struct ExTlsAcceptor(TlsAcceptor);

/// Stores `protocols` in the `alpn_protocols` field of a
/// `rustls::ServerConfig` and makes the `tokio_rustls::TlsAcceptor` of the
/// result, by its `From<Arc<ServerConfig>>`.
#[verifier::external_body]
fn acceptor_with_alpn(
    server_config: ServerConfig,
    protocols: Vec<Vec<u8>>,
) -> (acceptor: TlsAcceptor) {
    let mut server_config = server_config;
    server_config.alpn_protocols = protocols;
    TlsAcceptor::from(Arc::new(server_config))
}

/// The connection limit of a configuration that names none.
pub const DEFAULT_MAX_CONNS: usize = 10000;

/// The protocol names a TLS-enabled server advertises: HTTP/2 and nothing
/// else.
pub open spec fn advertised_protocols() -> Seq<Seq<u8>> {
    seq![seq![0x68u8, 0x32u8]]
}

/// The capacity of the pool that a connection limit asks for: the limit
/// itself, and for a limit of zero as much as a pool can hold.
pub open spec fn effective_capacity(max_conns: usize) -> int {
    if max_conns == 0 {
        max_capacity()
    } else {
        max_conns as int
    }
}

/// The protocol names to advertise, as the TLS library takes them.
pub fn alpn_protocols() -> (protocols: Vec<Vec<u8>>)
    ensures
        protocols.deep_view() == advertised_protocols(),
{
    let mut h2: Vec<u8> = Vec::new();
    h2.push(0x68u8);
    h2.push(0x32u8);
    let mut protocols: Vec<Vec<u8>> = Vec::new();
    protocols.push(h2);
    assert(protocols.deep_view() =~~= advertised_protocols());
    protocols
}

/// The limits and the TLS identity a server is built from.
pub struct Config {
    max_conns: usize,
    tls: Option<TlsAcceptor>,
}

impl Config {
    #[verifier::type_invariant]
    spec fn within_pool_limit(self) -> bool {
        self.max_conns as int <= max_capacity()
    }

    pub closed spec fn spec_max_conns(&self) -> usize {
        self.max_conns
    }

    pub closed spec fn spec_tls(&self) -> Option<TlsAcceptor> {
        self.tls
    }

    /// Whether a TLS identity is configured.
    pub open spec fn uses_tls(&self) -> bool {
        self.spec_tls() is Some
    }

    /// A configuration with the default connection limit and without TLS.
    pub fn new() -> (config: Config)
        ensures
            config.spec_max_conns() == DEFAULT_MAX_CONNS,
            !config.uses_tls(),
    {
        Config { max_conns: DEFAULT_MAX_CONNS, tls: None }
    }

    /// Sets the connection limit; zero stands for no limit of its own.
    pub fn max_conns(self, max_conns: u32) -> (config: Config)
        requires
            max_conns as int <= max_capacity(),
        ensures
            config.spec_max_conns() == max_conns,
            config.spec_tls() == self.spec_tls(),
    {
        Config { max_conns: max_conns as usize, tls: self.tls }
    }

    /// Enables TLS with the given identity. Whatever protocols the identity
    /// came with, the server advertises HTTP/2 alone.
    pub fn use_tls(self, server_config: ServerConfig) -> (config: Config)
        ensures
            config.spec_max_conns() == self.spec_max_conns(),
            config.uses_tls(),
    {
        proof {
            use_type_invariant(&self);
        }
        let acceptor = acceptor_with_alpn(server_config, alpn_protocols());
        Config { max_conns: self.max_conns, tls: Some(acceptor) }
    }

    /// The server this configuration describes, with a pool of its own.
    pub fn build(self) -> (server: Server)
        ensures
            server.max_conns() as int == effective_capacity(self.spec_max_conns()),
            *server.tls() == self.spec_tls(),
    {
        proof {
            use_type_invariant(&self);
        }
        let capacity: usize = if self.max_conns == 0 {
            AdmissionPool::max_capacity()
        } else {
            self.max_conns
        };
        Server::new(AdmissionPool::new(capacity), self.tls)
    }
}

} // verus!
