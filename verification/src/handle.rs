//! What the embedding application keeps of a running server.

use tokio::sync::watch::Receiver;
use vstd::prelude::*;

use crate::pool::AdmissionPool;
use crate::signal::ShutdownSignal;
use crate::signal::ShutdownTurn;
use crate::stats::Stats;

verus! {

/// The handle of a running server: it requests shutdown and reports the
/// utilization.
#[derive(Debug)]
pub struct Handle {
    shutdown: ShutdownSignal,
    pool: AdmissionPool,
}

impl Handle {
    pub closed spec fn spec_pool(&self) -> AdmissionPool {
        self.pool
    }

    pub closed spec fn spec_shutdown(&self) -> ShutdownSignal {
        self.shutdown
    }

    /// The number of connections that can be active at once.
    pub open spec fn spec_max_conns(&self) -> usize {
        self.spec_pool().capacity()
    }

    pub(crate) fn new(shutdown: ShutdownSignal, pool: AdmissionPool) -> (handle: Handle)
        ensures
            handle.spec_shutdown() == shutdown,
            handle.spec_pool() == pool,
    {
        Handle { shutdown, pool }
    }

    #[verifier::when_used_as_spec(spec_max_conns)]
    pub fn max_conns(&self) -> (max_conns: usize)
        ensures
            max_conns == self.spec_max_conns(),
    {
        self.pool.capacity()
    }

    /// Another handle to the same server.
    pub fn share(&self) -> (handle: Handle)
        ensures
            handle == *self,
    {
        Handle { shutdown: self.shutdown.share(), pool: self.pool.share() }
    }

    /// The utilization at the instant of the call. The count of
    /// connections in it never exceeds the limit.
    pub fn stats(&self) -> (stats: Stats)
        ensures
            stats.max_conns == self.max_conns(),
            stats.curr_conns <= stats.max_conns,
    {
        self.pool.stats()
    }

    /// The number of connections in flight at the instant of the call.
    pub fn current_conns(&self) -> (curr_conns: usize)
        ensures
            curr_conns <= self.max_conns(),
    {
        self.pool.stats().curr_conns
    }

    /// Requests shutdown. Every call sets the signal; the turn tells the
    /// caller whether its call was the one that set it, which is the call
    /// that waits for the server to stop.
    pub fn shutdown(&self) -> (turn: ShutdownTurn) {
        self.shutdown.trigger()
    }

    /// Whether shutdown had been requested at the instant of the call.
    pub fn is_shutting_down(&self) -> (requested: bool) {
        self.shutdown.is_triggered()
    }

    /// A fresh view of the shutdown signal.
    pub fn subscribe(&self) -> (receiver: Receiver<bool>) {
        self.shutdown.subscribe()
    }
}

} // verus!
