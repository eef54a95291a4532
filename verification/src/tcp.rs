//! The accept loop: admission of incoming connections while the server is
//! accepting, and the drain that follows a shutdown request.

use tokio::sync::watch::Receiver;
use tokio_rustls::TlsAcceptor;
use vstd::prelude::*;

use crate::pool::AdmissionPool;
use crate::pool::Permit;
use crate::signal::ShutdownSignal;
use crate::stats::Stats;
use crate::tcp_session::TcpSession;

verus! {

/// Where the accept loop stands.
#[derive(Clone, Copy, Debug, PartialEq, Eq, Structural)]
pub enum Phase {
    /// Incoming connections are admitted or rejected.
    Accepting,
    /// Shutdown was requested: nothing is accepted any more, and the loop
    /// waits for the connections in flight to end.
    Draining,
    /// Every permit is back in the pool.
    Stopped,
}

/// What one poll of the listening socket reported.
#[derive(Clone, Copy, Debug, PartialEq, Eq, Structural)]
pub enum AcceptEvent {
    /// No connection is waiting.
    Pending,
    /// Accepting failed.
    Failed,
    /// A connection was accepted.
    Connected,
}

/// One poll of the accept loop: whether the shutdown signal has fired, and
/// what the listening socket reported.
#[derive(Clone, Copy, Debug, PartialEq, Eq, Structural)]
pub struct Observation {
    pub shutdown_ready: bool,
    pub event: AcceptEvent,
}

/// What the accept loop decides on a poll.
#[derive(Clone, Copy, Debug, PartialEq, Eq, Structural)]
pub enum Decision {
    /// Stop accepting.
    Finish,
    /// Nothing to do until the next wake-up.
    Wait,
    /// Report the failed accept and go on.
    ReportError,
    /// The pool is full: close the transport without serving it and go on.
    Reject,
    /// A slot was granted: hand the connection to a task of its own and go
    /// on.
    Serve,
}

/// A decision of the accept loop together with what carrying it out takes.
#[derive(Debug)]
pub enum AcceptAction {
    Finish,
    Wait,
    ReportError,
    Reject,
    /// The admitted connection, and the utilization once it was admitted.
    Serve(TcpSession, Stats),
}

impl View for AcceptAction {
    type V = Decision;

    open spec fn view(&self) -> Decision {
        match self {
            AcceptAction::Finish => Decision::Finish,
            AcceptAction::Wait => Decision::Wait,
            AcceptAction::ReportError => Decision::ReportError,
            AcceptAction::Reject => Decision::Reject,
            AcceptAction::Serve(_, _) => Decision::Serve,
        }
    }
}

/// The decision on one poll. Outside the accepting phase nothing is
/// accepted. Within it a shutdown signal that has fired wins over whatever
/// the socket reports; an accepted connection is served if the pool
/// granted it a slot and rejected if not.
pub open spec fn decide(phase: Phase, shutdown_ready: bool, event: AcceptEvent, granted: bool)
    -> Decision {
    if phase != Phase::Accepting || shutdown_ready {
        Decision::Finish
    } else {
        match event {
            AcceptEvent::Pending => Decision::Wait,
            AcceptEvent::Failed => Decision::ReportError,
            AcceptEvent::Connected => if granted {
                Decision::Serve
            } else {
                Decision::Reject
            },
        }
    }
}

/// The phase after a poll: a shutdown signal that has fired ends the
/// accepting phase, and nothing else changes the phase.
pub open spec fn phase_after_poll(phase: Phase, shutdown_ready: bool) -> Phase {
    if phase == Phase::Accepting && shutdown_ready {
        Phase::Draining
    } else {
        phase
    }
}

/// The phase after a look at the pool while draining: the loop has stopped
/// once no connection is left.
pub open spec fn phase_after_drain(phase: Phase, idle: bool) -> Phase {
    if phase == Phase::Draining && idle {
        Phase::Stopped
    } else {
        phase
    }
}

/// The phase after the first `n` of a sequence of polls.
pub open spec fn phase_after_polls(phase: Phase, observations: Seq<Observation>, n: int) -> Phase
    decreases n,
{
    if n <= 0 {
        phase
    } else {
        phase_after_poll(
            phase_after_polls(phase, observations, n - 1),
            observations[n - 1].shutdown_ready,
        )
    }
}

/// Whether one of the first `n` polls saw the shutdown signal fired.
pub open spec fn shutdown_seen(observations: Seq<Observation>, n: int) -> bool {
    exists|i: int| 0 <= i < n && (#[trigger] observations[i]).shutdown_ready
}

/// A loop that starts out accepting is draining after a sequence of polls
/// exactly if one of the polls saw the shutdown signal fired; polls alone
/// never stop it.
pub proof fn law_first_shutdown_ends_accepting(observations: Seq<Observation>, n: int)
    requires
        0 <= n <= observations.len(),
    ensures
        phase_after_polls(Phase::Accepting, observations, n) == if shutdown_seen(observations, n) {
            Phase::Draining
        } else {
            Phase::Accepting
        },
    decreases n,
{
    if n > 0 {
        law_first_shutdown_ends_accepting(observations, n - 1);
        if shutdown_seen(observations, n - 1) {
            let i = choose|i: int| 0 <= i < n - 1 && (#[trigger] observations[i]).shutdown_ready;
            assert(0 <= i < n && observations[i].shutdown_ready);
        } else if observations[n - 1].shutdown_ready {
            assert(0 <= n - 1 < n && observations[n - 1].shutdown_ready);
        } else {
            assert forall|i: int| 0 <= i < n implies !(#[trigger] observations[i]).shutdown_ready by {
                if i < n - 1 {
                    assert(!shutdown_seen(observations, n - 1));
                }
            }
        }
    }
}

/// The accept loop of one server.
pub struct TcpAcceptLoop {
    pool: AdmissionPool,
    tls: Option<TlsAcceptor>,
    shutdown: ShutdownSignal,
    phase: Phase,
}

impl TcpAcceptLoop {
    pub closed spec fn spec_phase(&self) -> Phase {
        self.phase
    }

    pub closed spec fn spec_pool(&self) -> &AdmissionPool {
        &self.pool
    }

    pub closed spec fn spec_tls(&self) -> &Option<TlsAcceptor> {
        &self.tls
    }

    pub closed spec fn spec_shutdown(&self) -> ShutdownSignal {
        self.shutdown
    }

    /// Whether connections go through a TLS handshake.
    pub open spec fn spec_is_secure(&self) -> bool {
        self.spec_tls() is Some
    }

    /// The number of connections that can be active at once.
    pub open spec fn spec_max_conns(&self) -> usize {
        self.spec_pool().capacity()
    }

    /// A loop in its accepting phase.
    pub fn new(
        pool: AdmissionPool,
        tls: Option<TlsAcceptor>,
        shutdown: ShutdownSignal,
    ) -> (accept_loop: TcpAcceptLoop)
        ensures
            accept_loop.phase() == Phase::Accepting,
            *accept_loop.pool() == pool,
            *accept_loop.tls() == tls,
            accept_loop.spec_shutdown() == shutdown,
    {
        TcpAcceptLoop { pool, tls, shutdown, phase: Phase::Accepting }
    }

    #[verifier::when_used_as_spec(spec_phase)]
    pub fn phase(&self) -> (phase: Phase)
        ensures
            phase == self.spec_phase(),
    {
        self.phase
    }

    #[verifier::when_used_as_spec(spec_pool)]
    pub fn pool(&self) -> (pool: &AdmissionPool)
        ensures
            pool == self.spec_pool(),
    {
        &self.pool
    }

    /// The TLS acceptor, where TLS is configured.
    #[verifier::when_used_as_spec(spec_tls)]
    pub fn tls(&self) -> (tls: &Option<TlsAcceptor>)
        ensures
            tls == self.spec_tls(),
    {
        &self.tls
    }

    #[verifier::when_used_as_spec(spec_is_secure)]
    pub fn is_secure(&self) -> (secure: bool)
        ensures
            secure == self.spec_is_secure(),
    {
        self.tls.is_some()
    }

    #[verifier::when_used_as_spec(spec_max_conns)]
    pub fn max_conns(&self) -> (max_conns: usize)
        ensures
            max_conns == self.spec_max_conns(),
    {
        self.pool.capacity()
    }

    /// A fresh view of the shutdown signal, for the loop itself or for a
    /// connection task.
    pub fn subscribe(&self) -> (receiver: Receiver<bool>) {
        self.shutdown.subscribe()
    }

    /// The action on an accepted connection, given what the pool answered
    /// and the utilization read after it answered.
    pub fn on_offer(&self, offer: Option<Permit>, utilization: Stats) -> (action: AcceptAction)
        ensures
            match offer {
                Some(permit) => action matches AcceptAction::Serve(session, stats)
                    && session.permit() == permit
                    && session.is_secure() == self.is_secure()
                    && stats == utilization,
                None => action == AcceptAction::Reject,
            },
    {
        match offer {
            Some(permit) => AcceptAction::Serve(
                TcpSession::new(permit, self.tls.is_some()),
                utilization,
            ),
            None => AcceptAction::Reject,
        }
    }

    /// One poll of the loop. Only an accepted connection in the accepting
    /// phase, with the shutdown signal not fired, reaches the pool; whether
    /// it is served or rejected is the pool's answer.
    pub fn poll(&mut self, shutdown_ready: bool, event: AcceptEvent) -> (action: AcceptAction)
        ensures
            action@ == decide(old(self).phase(), shutdown_ready, event, action@ == Decision::Serve),
            action matches AcceptAction::Serve(session, stats) ==> session.is_secure() == old(
                self,
            ).is_secure() && stats.max_conns == old(self).max_conns() && stats.curr_conns
                <= stats.max_conns,
            final(self).phase() == phase_after_poll(old(self).phase(), shutdown_ready),
            final(self).pool() == old(self).pool(),
            final(self).tls() == old(self).tls(),
            final(self).spec_shutdown() == old(self).spec_shutdown(),
    {
        match self.phase {
            Phase::Accepting => {},
            _ => {
                return AcceptAction::Finish;
            },
        }
        if shutdown_ready {
            self.phase = Phase::Draining;
            return AcceptAction::Finish;
        }
        match event {
            AcceptEvent::Pending => AcceptAction::Wait,
            AcceptEvent::Failed => AcceptAction::ReportError,
            AcceptEvent::Connected => {
                let offer = self.pool.try_acquire();
                let utilization = self.pool.stats();
                self.on_offer(offer, utilization)
            },
        }
    }

    /// Runs the loop over a recorded sequence of polls and returns the
    /// action taken on each, in order.
    pub fn run(&mut self, observations: &Vec<Observation>) -> (actions: Vec<AcceptAction>)
        ensures
            actions.len() == observations.len(),
            forall|i: int|
                0 <= i < actions.len() ==> (#[trigger] actions[i])@ == decide(
                    phase_after_polls(old(self).phase(), observations@, i),
                    observations[i].shutdown_ready,
                    observations[i].event,
                    actions[i]@ == Decision::Serve,
                ),
            forall|i: int|
                0 <= i < actions.len() ==> (#[trigger] actions[i] matches AcceptAction::Serve(
                    session,
                    stats,
                ) ==> session.is_secure() == old(self).is_secure() && stats.max_conns == old(
                    self,
                ).max_conns() && stats.curr_conns <= stats.max_conns),
            final(self).phase() == phase_after_polls(
                old(self).phase(),
                observations@,
                observations.len() as int,
            ),
            final(self).pool() == old(self).pool(),
            final(self).tls() == old(self).tls(),
            final(self).spec_shutdown() == old(self).spec_shutdown(),
    {
        let mut actions: Vec<AcceptAction> = Vec::new();
        let mut at: usize = 0;
        while at < observations.len()
            invariant
                at <= observations.len(),
                actions.len() == at,
                forall|i: int|
                    0 <= i < at ==> (#[trigger] actions[i])@ == decide(
                        phase_after_polls(old(self).phase(), observations@, i),
                        observations[i].shutdown_ready,
                        observations[i].event,
                        actions[i]@ == Decision::Serve,
                    ),
                forall|i: int|
                    0 <= i < at ==> (#[trigger] actions[i] matches AcceptAction::Serve(
                        session,
                        stats,
                    ) ==> session.is_secure() == old(self).is_secure() && stats.max_conns == old(
                        self,
                    ).max_conns() && stats.curr_conns <= stats.max_conns),
                self.phase() == phase_after_polls(old(self).phase(), observations@, at as int),
                self.pool() == old(self).pool(),
                self.tls() == old(self).tls(),
                self.spec_shutdown() == old(self).spec_shutdown(),
            decreases observations.len() - at,
        {
            let observation = observations[at];
            let action = self.poll(observation.shutdown_ready, observation.event);
            actions.push(action);
            at = at + 1;
        }
        actions
    }

    /// Takes note of a reading of the pool while draining: once no
    /// connection is left the loop has stopped. In the other phases the
    /// reading changes nothing.
    pub fn settle_drain(&mut self, reading: Stats) -> (stopped: bool)
        ensures
            final(self).phase() == phase_after_drain(old(self).phase(), reading.is_idle()),
            stopped == (final(self).phase() == Phase::Stopped),
            final(self).pool() == old(self).pool(),
            final(self).tls() == old(self).tls(),
            final(self).spec_shutdown() == old(self).spec_shutdown(),
    {
        match self.phase {
            Phase::Accepting => false,
            Phase::Draining => {
                if reading.is_idle() {
                    self.phase = Phase::Stopped;
                    true
                } else {
                    false
                }
            },
            Phase::Stopped => true,
        }
    }

    /// Reads the pool and takes note of the reading, as `settle_drain`
    /// does.
    pub fn poll_drain(&mut self) -> (stopped: bool)
        ensures
            stopped == (final(self).phase() == Phase::Stopped),
            old(self).phase() != Phase::Draining ==> final(self).phase() == old(self).phase(),
            old(self).phase() == Phase::Draining ==> final(self).phase() != Phase::Accepting,
            final(self).pool() == old(self).pool(),
            final(self).tls() == old(self).tls(),
            final(self).spec_shutdown() == old(self).spec_shutdown(),
    {
        let reading = self.pool.stats();
        self.settle_drain(reading)
    }
}

} // verus!
