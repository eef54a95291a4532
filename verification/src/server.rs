//! A server that is configured and not yet running.

use tokio_rustls::TlsAcceptor;
use vstd::prelude::*;

use crate::error::Error;
use crate::handle::Handle;
use crate::pool::AdmissionPool;
use crate::signal::ShutdownSignal;
use crate::tcp::Phase;
use crate::tcp::TcpAcceptLoop;

verus! {

/// What opening the listening socket came to.
#[derive(Debug)]
pub enum Opened<L> {
    /// The address could not be bound.
    BindFailed(std::io::Error),
    /// The address was bound, and the socket could not tell its local
    /// address.
    LocalAddrFailed(std::io::Error),
    /// The socket is bound and listening.
    Listening(L),
}

/// The limits, the pool and the TLS identity of a server.
pub struct Server {
    pool: AdmissionPool,
    tls: Option<TlsAcceptor>,
}

impl Server {
    pub closed spec fn spec_pool(&self) -> AdmissionPool {
        self.pool
    }

    pub closed spec fn spec_tls(&self) -> &Option<TlsAcceptor> {
        &self.tls
    }

    /// The number of connections that can be active at once.
    pub open spec fn spec_max_conns(&self) -> usize {
        self.spec_pool().capacity()
    }

    /// Whether connections go through a TLS handshake.
    pub open spec fn spec_is_secure(&self) -> bool {
        self.spec_tls() is Some
    }

    /// A server over `pool`, with TLS where an acceptor is given.
    pub fn new(pool: AdmissionPool, tls: Option<TlsAcceptor>) -> (server: Server)
        ensures
            server.spec_pool() == pool,
            *server.tls() == tls,
    {
        Server { pool, tls }
    }

    #[verifier::when_used_as_spec(spec_max_conns)]
    pub fn max_conns(&self) -> (max_conns: usize)
        ensures
            max_conns == self.spec_max_conns(),
    {
        self.pool.capacity()
    }

    #[verifier::when_used_as_spec(spec_is_secure)]
    pub fn is_secure(&self) -> (secure: bool)
        ensures
            secure == self.spec_is_secure(),
    {
        self.tls.is_some()
    }

    /// The TLS acceptor, where TLS is configured.
    #[verifier::when_used_as_spec(spec_tls)]
    pub fn tls(&self) -> (tls: &Option<TlsAcceptor>)
        ensures
            tls == self.spec_tls(),
    {
        &self.tls
    }

    /// Starts the server on a socket that the caller has opened. A socket
    /// that failed to open is the only thing that stops a server from
    /// starting. Otherwise the accept loop starts in its accepting phase,
    /// the loop and the handle share the server's pool and one fresh
    /// shutdown signal, and the socket is handed back for the loop to
    /// accept on.
    pub fn run<L>(self, opened: Opened<L>) -> (started: Result<(TcpAcceptLoop, Handle, L), Error>)
        ensures
            match opened {
                Opened::BindFailed(source) => started == Err::<(TcpAcceptLoop, Handle, L), Error>(
                    Error::Bind(source),
                ),
                Opened::LocalAddrFailed(source) => started == Err::<
                    (TcpAcceptLoop, Handle, L),
                    Error,
                >(Error::LocalAddr(source)),
                Opened::Listening(socket) => started matches Ok((accept_loop, handle, listener))
                    && listener == socket
                    && accept_loop.phase() == Phase::Accepting
                    && *accept_loop.pool() == self.spec_pool()
                    && accept_loop.tls() == self.tls()
                    && handle.spec_pool() == self.spec_pool()
                    && handle.spec_shutdown() == accept_loop.spec_shutdown(),
            },
    {
        match opened {
            Opened::BindFailed(source) => Err(Error::Bind(source)),
            Opened::LocalAddrFailed(source) => Err(Error::LocalAddr(source)),
            Opened::Listening(listener) => {
                let shutdown = ShutdownSignal::new();
                let handle = Handle::new(shutdown.share(), self.pool.share());
                Ok((TcpAcceptLoop::new(self.pool, self.tls, shutdown), handle, listener))
            },
        }
    }
}

} // verus!
