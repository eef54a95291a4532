//! The connection lifecycle as a whole: the pool, the shutdown signal, the
//! accept loop and the connection tasks, seen as one state that events
//! change one at a time, and what holds of every state a server can reach.

use vstd::prelude::*;

use crate::http2::completion;
use crate::http2::Completion;
use crate::http2::Served;
use crate::pool::PoolState;
use crate::progress::Progress;
use crate::signal::ShutdownTurn;
use crate::tcp::decide;
use crate::tcp::phase_after_drain;
use crate::tcp::phase_after_poll;
use crate::tcp::AcceptEvent;
use crate::tcp::Decision;
use crate::tcp::Phase;
use crate::tcp_session::first_stage;
use crate::tcp_session::stage_after;
use crate::tcp_session::Readiness;
use crate::tcp_session::Stage;
use crate::tls::handshake_outcome;
use crate::tls::Handshake;
use crate::tls::TlsOutcome;

verus! {

/// A server at one instant.
pub struct Lifecycle {
    /// The admission pool.
    pub pool: PoolState,
    /// Whether shutdown has been requested.
    pub signal: bool,
    /// Where the accept loop stands.
    pub phase: Phase,
    /// Whether TLS is configured.
    pub secure: bool,
    /// The stage of every connection admitted so far, in the order of
    /// admission.
    pub connections: Seq<Stage>,
}

/// What can happen to a server.
pub enum Event {
    /// The handle requests shutdown.
    Shutdown,
    /// The accept loop is polled, and the listening socket reports this.
    Poll(AcceptEvent),
    /// The task of the connection with this number is polled and finds
    /// this; whether the shutdown signal has fired it reads off the server.
    Task(int, Readiness),
    /// The accept loop looks at the pool to see whether it has drained.
    Drain,
}

/// The number of connections that have not ended.
pub open spec fn open_connections(connections: Seq<Stage>) -> nat
    decreases connections.len(),
{
    if connections.len() == 0 {
        0
    } else if connections.last() == Stage::Closed {
        open_connections(connections.drop_last())
    } else {
        open_connections(connections.drop_last()) + 1
    }
}

impl Lifecycle {
    /// A server that has just started: every slot free, no shutdown
    /// requested, the loop accepting, no connection admitted yet.
    pub open spec fn init(capacity: nat, secure: bool) -> Lifecycle {
        Lifecycle {
            pool: PoolState::fresh(capacity),
            signal: false,
            phase: Phase::Accepting,
            secure,
            connections: Seq::empty(),
        }
    }

    /// What the accept loop decides if it is polled now and the socket
    /// reports `event`.
    pub open spec fn decision(self, event: AcceptEvent) -> Decision {
        decide(self.phase, self.signal, event, self.pool.grants())
    }

    /// The turn of a shutdown request that is made now.
    pub open spec fn turn(self) -> ShutdownTurn {
        ShutdownTurn::spec_after(self.signal)
    }

    /// The number of connections in flight, as the handle reports it.
    pub open spec fn current_conns(self) -> int {
        self.pool.in_use()
    }

    /// What a connection task finds when it is polled now: what it is
    /// handed, and the shutdown signal as it stands.
    pub open spec fn observed(self, seen: Readiness) -> Readiness {
        Readiness { shutdown_ready: self.signal, ..seen }
    }

    /// The server after one event.
    pub open spec fn step(self, event: Event) -> Lifecycle {
        match event {
            Event::Shutdown => Lifecycle { signal: true, ..self },
            Event::Poll(accept) => {
                let phase = phase_after_poll(self.phase, self.signal);
                if self.decision(accept) == Decision::Serve {
                    Lifecycle {
                        pool: self.pool.try_acquire(),
                        phase,
                        connections: self.connections.push(first_stage(self.secure)),
                        ..self
                    }
                } else {
                    Lifecycle { phase, ..self }
                }
            },
            Event::Task(which, seen) => if 0 <= which < self.connections.len() {
                let before = self.connections[which];
                let after = stage_after(before, self.observed(seen));
                Lifecycle {
                    pool: if before != Stage::Closed && after == Stage::Closed {
                        self.pool.release()
                    } else {
                        self.pool
                    },
                    connections: self.connections.update(which, after),
                    ..self
                }
            } else {
                self
            },
            Event::Drain => Lifecycle {
                phase: phase_after_drain(self.phase, self.pool.drained(self.pool.capacity)),
                ..self
            },
        }
    }

    /// The server after a sequence of events, in order.
    pub open spec fn after(self, events: Seq<Event>) -> Lifecycle
        decreases events.len(),
    {
        if events.len() == 0 {
            self
        } else {
            self.after(events.drop_last()).step(events.last())
        }
    }

    /// What holds of a server at every instant: the pool is within its
    /// bounds, the permits that are out are those of the connections that
    /// have not ended, and a stopped loop leaves no connection behind.
    pub open spec fn consistent(self) -> bool {
        &&& self.pool.wf()
        &&& self.pool.in_use() == open_connections(self.connections)
        &&& self.phase == Phase::Stopped ==> open_connections(self.connections) == 0
    }
}

/// `n` connections that arrive one after the other.
pub open spec fn arrivals(n: nat) -> Seq<Event> {
    Seq::new(n, |i: int| Event::Poll(AcceptEvent::Connected))
}

/// One poll of each of the first `seen.len()` connection tasks, in the
/// order of admission.
pub open spec fn sweep(seen: Seq<Readiness>) -> Seq<Event> {
    Seq::new(seen.len(), |i: int| Event::Task(i, seen[i]))
}

/// A connection that is admitted counts as open, whatever stage it starts
/// in.
pub proof fn lemma_open_push(connections: Seq<Stage>, stage: Stage)
    ensures
        open_connections(connections.push(stage)) == open_connections(connections) + if stage
            == Stage::Closed {
            0nat
        } else {
            1nat
        },
{
    assert(connections.push(stage).drop_last() =~= connections);
}

/// A change of one connection's stage changes the count of open connections
/// by that connection alone.
pub proof fn lemma_open_update(connections: Seq<Stage>, which: int, stage: Stage)
    requires
        0 <= which < connections.len(),
    ensures
        open_connections(connections.update(which, stage)) + if connections[which]
            == Stage::Closed {
            0nat
        } else {
            1nat
        } == open_connections(connections) + if stage == Stage::Closed {
            0nat
        } else {
            1nat
        },
    decreases connections.len(),
{
    let updated = connections.update(which, stage);
    if which == connections.len() - 1 {
        assert(updated.drop_last() =~= connections.drop_last());
    } else {
        assert(updated.drop_last() =~= connections.drop_last().update(which, stage));
        lemma_open_update(connections.drop_last(), which, stage);
    }
}

/// No connection is open exactly if every connection has ended.
pub proof fn lemma_open_none(connections: Seq<Stage>)
    ensures
        open_connections(connections) == 0 <==> (forall|i: int|
            0 <= i < connections.len() ==> connections[i] == Stage::Closed),
        open_connections(connections) <= connections.len(),
    decreases connections.len(),
{
    if connections.len() > 0 {
        lemma_open_none(connections.drop_last());
        if open_connections(connections) == 0 {
            assert forall|i: int| 0 <= i < connections.len() implies connections[i]
                == Stage::Closed by {
                if i < connections.len() - 1 {
                    assert(connections.drop_last()[i] == connections[i]);
                }
            }
        } else if connections.last() == Stage::Closed {
            let i = choose|i: int|
                0 <= i < connections.drop_last().len() && connections.drop_last()[i]
                    != Stage::Closed;
            assert(connections[i] != Stage::Closed);
        }
    }
}

/// No event takes a consistent server out of consistency, nor changes the
/// capacity of its pool, nor whether it is secured by TLS.
pub proof fn lemma_step_keeps_consistent(state: Lifecycle, event: Event)
    requires
        state.consistent(),
    ensures
        state.step(event).consistent(),
        state.step(event).pool.capacity == state.pool.capacity,
        state.step(event).secure == state.secure,
{
    match event {
        Event::Poll(accept) => {
            lemma_open_push(state.connections, first_stage(state.secure));
        },
        Event::Task(which, seen) => {
            if 0 <= which < state.connections.len() {
                let after = stage_after(state.connections[which], state.observed(seen));
                lemma_open_update(state.connections, which, after);
            }
        },
        _ => {},
    }
}

/// Every state that a server reaches from a consistent one is consistent.
pub proof fn lemma_reachable_is_consistent(state: Lifecycle, events: Seq<Event>)
    requires
        state.consistent(),
    ensures
        state.after(events).consistent(),
        state.after(events).pool.capacity == state.pool.capacity,
        state.after(events).secure == state.secure,
    decreases events.len(),
{
    if events.len() > 0 {
        lemma_reachable_is_consistent(state, events.drop_last());
        lemma_step_keeps_consistent(state.after(events.drop_last()), events.last());
    }
}

/// At whatever instant the handle is asked, the number of connections it
/// reports is not negative, is not above the capacity, and is the number of
/// connection tasks that have taken a permit and not given it back: the
/// connections that were admitted and have not ended.
pub proof fn law_current_conns_counts_open_connections(
    capacity: nat,
    secure: bool,
    events: Seq<Event>,
)
    ensures
        ({
            let reached = Lifecycle::init(capacity, secure).after(events);
            &&& 0 <= reached.current_conns() <= capacity
            &&& reached.current_conns() == open_connections(reached.connections)
        }),
{
    lemma_reachable_is_consistent(Lifecycle::init(capacity, secure), events);
}

/// Arrivals up to the capacity are all admitted: they leave the loop
/// accepting and every one of them open.
pub proof fn lemma_arrivals(capacity: nat, secure: bool, arrived: nat)
    requires
        arrived <= capacity,
    ensures
        ({
            let reached = Lifecycle::init(capacity, secure).after(arrivals(arrived));
            &&& reached.phase == Phase::Accepting
            &&& !reached.signal
            &&& reached.pool == (PoolState { capacity, available: (capacity - arrived) as nat })
            &&& reached.connections == Seq::new(arrived, |i: int| first_stage(secure))
            &&& open_connections(reached.connections) == arrived
        }),
    decreases arrived,
{
    let start = Lifecycle::init(capacity, secure);
    if arrived == 0 {
        assert(start.after(arrivals(0)) == start);
        assert(start.connections =~= Seq::new(0, |i: int| first_stage(secure)));
    } else {
        let before = (arrived - 1) as nat;
        lemma_arrivals(capacity, secure, before);
        assert(arrivals(arrived).drop_last() =~= arrivals(before));
        assert(arrivals(arrived).last() == Event::Poll(AcceptEvent::Connected));
        let earlier = start.after(arrivals(before));
        lemma_open_push(earlier.connections, first_stage(secure));
        assert(earlier.connections.push(first_stage(secure)) =~= Seq::new(
            arrived,
            |i: int| first_stage(secure),
        ));
    }
}

/// Of connections that arrive while none ends, a server admits as many as
/// its pool has slots and rejects the next: after `arrived` of them, with
/// `arrived` not above the capacity, all of them are in flight, and one more
/// is served if a slot is left and rejected if none is.
pub proof fn law_admits_up_to_capacity(capacity: nat, secure: bool, arrived: nat)
    requires
        arrived <= capacity,
    ensures
        ({
            let reached = Lifecycle::init(capacity, secure).after(arrivals(arrived));
            &&& reached.connections.len() == arrived
            &&& reached.current_conns() == arrived
            &&& arrived < capacity ==> reached.decision(AcceptEvent::Connected) == Decision::Serve
            &&& arrived == capacity ==> reached.decision(AcceptEvent::Connected)
                == Decision::Reject
        }),
{
    lemma_arrivals(capacity, secure, arrived);
}

/// With one connection more than the pool has slots, exactly as many are
/// served as there are slots, and the last one is rejected and leaves no
/// trace.
pub proof fn law_one_more_than_capacity(capacity: nat, secure: bool)
    ensures
        ({
            let full = Lifecycle::init(capacity, secure).after(arrivals(capacity));
            let overrun = Lifecycle::init(capacity, secure).after(arrivals(capacity + 1));
            &&& full.connections.len() == capacity
            &&& full.current_conns() == capacity
            &&& full.decision(AcceptEvent::Connected) == Decision::Reject
            &&& overrun == full
        }),
{
    lemma_arrivals(capacity, secure, capacity);
    assert(arrivals(capacity + 1).drop_last() =~= arrivals(capacity));
    assert(arrivals(capacity + 1).last() == Event::Poll(AcceptEvent::Connected));
}

/// The end of a connection, by whichever path it comes, gives its slot
/// back: one connection fewer is in flight, no other connection is touched,
/// and the loop, if it is still accepting, serves the next arrival.
pub proof fn law_closing_frees_the_slot(state: Lifecycle, which: int, seen: Readiness)
    requires
        state.consistent(),
        0 <= which < state.connections.len(),
        state.connections[which] != Stage::Closed,
        state.step(Event::Task(which, seen)).connections[which] == Stage::Closed,
    ensures
        ({
            let next = state.step(Event::Task(which, seen));
            &&& next.current_conns() == state.current_conns() - 1
            &&& next.connections.len() == state.connections.len()
            &&& forall|other: int|
                0 <= other < state.connections.len() && other != which
                    ==> next.connections[other] == state.connections[other]
            &&& state.phase == Phase::Accepting && !state.signal ==> next.decision(
                AcceptEvent::Connected,
            ) == Decision::Serve
        }),
{
    lemma_open_update(state.connections, which, Stage::Closed);
    lemma_open_none(state.connections);
}

/// A full pool turns connections away until a connection ends, and serves
/// the next one after that.
pub proof fn law_full_pool_reopens_after_close(
    capacity: nat,
    secure: bool,
    which: int,
    seen: Readiness,
)
    requires
        0 <= which < capacity,
        stage_after(first_stage(secure), Readiness { shutdown_ready: false, ..seen })
            == Stage::Closed,
    ensures
        ({
            let full = Lifecycle::init(capacity, secure).after(arrivals(capacity));
            let reopened = full.step(Event::Task(which, seen));
            &&& full.decision(AcceptEvent::Connected) == Decision::Reject
            &&& reopened.decision(AcceptEvent::Connected) == Decision::Serve
            &&& reopened.step(Event::Poll(AcceptEvent::Connected)).current_conns() == capacity
        }),
{
    let full = Lifecycle::init(capacity, secure).after(arrivals(capacity));
    lemma_arrivals(capacity, secure, capacity);
    lemma_reachable_is_consistent(Lifecycle::init(capacity, secure), arrivals(capacity));
    law_closing_frees_the_slot(full, which, seen);
}

/// A handshake that runs out of time ends its connection and frees its
/// slot; and for as long as a handshake has nothing to report, polling it
/// changes nothing, so that a slow handshake costs the accept loop nothing
/// but the slot it holds.
pub proof fn law_timed_out_handshake_frees_its_slot(state: Lifecycle, which: int, seen: Readiness)
    requires
        state.consistent(),
        0 <= which < state.connections.len(),
        state.connections[which] == Stage::Handshaking,
    ensures
        ({
            let next = state.step(Event::Task(which, seen));
            &&& seen.timed_out ==> next.connections[which] == Stage::Closed && next.current_conns()
                == state.current_conns() - 1
            &&& !state.signal && !seen.timed_out && seen.handshake is Pending ==> next == state
        }),
{
    if seen.timed_out {
        law_closing_frees_the_slot(state, which, seen);
    } else if !state.signal && seen.handshake is Pending {
        assert(state.connections.update(which, Stage::Handshaking) =~= state.connections);
    }
}

/// Neither a failed accept nor a rejected connection changes anything: the
/// loop goes on accepting, and no slot is taken.
pub proof fn law_errors_and_rejections_change_nothing(state: Lifecycle, accept: AcceptEvent)
    requires
        state.decision(accept) == Decision::ReportError || state.decision(accept)
            == Decision::Reject || state.decision(accept) == Decision::Wait,
    ensures
        state.step(Event::Poll(accept)) == state,
{
}

/// Once the accept loop has left its accepting phase it never accepts
/// again: whatever happens afterwards, it is not back in that phase, a poll
/// of it ends in `Finish` whatever the socket reports, and no connection is
/// added to those that were admitted before.
pub proof fn law_no_accept_after_shutdown(state: Lifecycle, events: Seq<Event>, accept: AcceptEvent)
    requires
        state.phase != Phase::Accepting,
    ensures
        state.after(events).phase != Phase::Accepting,
        state.after(events).decision(accept) == Decision::Finish,
        state.after(events).connections.len() == state.connections.len(),
    decreases events.len(),
{
    if events.len() > 0 {
        law_no_accept_after_shutdown(state, events.drop_last(), accept);
        law_no_accept_after_shutdown(state, events.drop_last(), AcceptEvent::Connected);
    }
}

/// No event takes the loop out of its stopped phase.
pub proof fn lemma_stopped_stays_stopped(state: Lifecycle, events: Seq<Event>)
    requires
        state.phase == Phase::Stopped,
    ensures
        state.after(events).phase == Phase::Stopped,
    decreases events.len(),
{
    if events.len() > 0 {
        lemma_stopped_stays_stopped(state, events.drop_last());
    }
}

/// Once a server has stopped, which is when a shutdown request resolves,
/// no connection is in flight, every connection that was admitted has
/// ended, and whatever happens afterwards none is in flight and nothing is
/// accepted.
pub proof fn law_stopped_server_stays_idle(
    capacity: nat,
    secure: bool,
    events: Seq<Event>,
    later: Seq<Event>,
    accept: AcceptEvent,
)
    requires
        Lifecycle::init(capacity, secure).after(events).phase == Phase::Stopped,
    ensures
        ({
            let stopped = Lifecycle::init(capacity, secure).after(events);
            &&& stopped.current_conns() == 0
            &&& forall|i: int|
                0 <= i < stopped.connections.len() ==> stopped.connections[i] == Stage::Closed
            &&& stopped.after(later).current_conns() == 0
            &&& stopped.after(later).phase == Phase::Stopped
            &&& stopped.after(later).decision(accept) == Decision::Finish
        }),
{
    let stopped = Lifecycle::init(capacity, secure).after(events);
    lemma_reachable_is_consistent(Lifecycle::init(capacity, secure), events);
    lemma_reachable_is_consistent(stopped, later);
    lemma_open_none(stopped.connections);
    law_no_accept_after_shutdown(stopped, later, accept);
    lemma_stopped_stays_stopped(stopped, later);
}

/// The loop stops accepting only on a shutdown request: a server that is
/// past its accepting phase has seen one.
pub proof fn law_stops_only_on_request(capacity: nat, secure: bool, events: Seq<Event>)
    ensures
        ({
            let reached = Lifecycle::init(capacity, secure).after(events);
            reached.phase != Phase::Accepting ==> reached.signal
        }),
    decreases events.len(),
{
    if events.len() > 0 {
        law_stops_only_on_request(capacity, secure, events.drop_last());
    }
}

/// A shutdown request that has been made stays made.
pub proof fn law_signal_never_reverts(state: Lifecycle, events: Seq<Event>)
    requires
        state.signal,
    ensures
        state.after(events).signal,
    decreases events.len(),
{
    if events.len() > 0 {
        law_signal_never_reverts(state, events.drop_last());
    }
}

/// Requesting shutdown twice is requesting it once: the second request
/// finds the signal set, changes nothing, releases no permit, and leaves
/// the server on the very course the first one set it on.
pub proof fn law_shutdown_is_idempotent(state: Lifecycle, events: Seq<Event>)
    ensures
        ({
            let once = state.step(Event::Shutdown);
            let twice = once.step(Event::Shutdown);
            &&& once.turn() == ShutdownTurn::Repeated
            &&& twice == once
            &&& once.pool == state.pool
            &&& once.connections == state.connections
            &&& twice.after(events) == once.after(events)
        }),
{
}

/// A shutdown request is seen at the very next poll, whatever the socket
/// reports in that poll, and ends the accepting phase without taking a
/// slot.
pub proof fn law_shutdown_wins_the_poll(state: Lifecycle, accept: AcceptEvent)
    requires
        state.phase == Phase::Accepting,
    ensures
        ({
            let requested = state.step(Event::Shutdown);
            &&& requested.decision(accept) == Decision::Finish
            &&& requested.step(Event::Poll(accept)).phase == Phase::Draining
            &&& requested.step(Event::Poll(accept)).pool == state.pool
        }),
{
}

/// In each of the three races, a shutdown signal that has fired wins over
/// whatever else is ready in the same poll: the accept loop stops accepting,
/// a handshake is abandoned, and a connection that is being served is
/// interrupted.
pub proof fn law_shutdown_wins_every_race(
    accept: AcceptEvent,
    granted: bool,
    timed_out: bool,
    handshake: Progress<Handshake>,
    conn: Progress<Served>,
)
    ensures
        decide(Phase::Accepting, true, accept, granted) == Decision::Finish,
        handshake_outcome(true, timed_out, handshake) == Progress::Ready(TlsOutcome::Shutdown),
        completion(true, conn) == Some(Completion::Interrupted),
{
}

/// After a shutdown request, one poll of each of the first `polled`
/// connection tasks has ended those connections and left the rest as they
/// were.
pub proof fn lemma_sweep(state: Lifecycle, seen: Seq<Readiness>, polled: nat)
    requires
        state.consistent(),
        state.signal,
        seen.len() == state.connections.len(),
        polled <= seen.len(),
    ensures
        ({
            let swept = state.after(sweep(seen).take(polled as int));
            &&& swept.consistent()
            &&& swept.signal
            &&& swept.phase == state.phase
            &&& swept.connections.len() == state.connections.len()
            &&& forall|i: int| 0 <= i < polled ==> swept.connections[i] == Stage::Closed
            &&& forall|i: int|
                polled <= i < state.connections.len() ==> swept.connections[i]
                    == state.connections[i]
        }),
    decreases polled,
{
    let events = sweep(seen).take(polled as int);
    if polled == 0 {
        assert(state.after(events) == state);
    } else {
        let before = (polled - 1) as nat;
        lemma_sweep(state, seen, before);
        assert(events.drop_last() =~= sweep(seen).take(before as int));
        assert(events.last() == Event::Task(before as int, seen[before as int]));
        let earlier = state.after(sweep(seen).take(before as int));
        lemma_step_keeps_consistent(earlier, events.last());
    }
}

/// Shutdown drains the server: once shutdown is requested, one poll of the
/// accept loop and of every connection task ends every connection, and the
/// next look at the pool finds it drained and stops the loop.
pub proof fn law_shutdown_drains(state: Lifecycle, accept: AcceptEvent, seen: Seq<Readiness>)
    requires
        state.consistent(),
        seen.len() == state.connections.len(),
    ensures
        ({
            let requested = state.step(Event::Shutdown).step(Event::Poll(accept));
            let swept = requested.after(sweep(seen));
            &&& requested.phase != Phase::Accepting
            &&& requested.connections == state.connections
            &&& swept.current_conns() == 0
            &&& swept.step(Event::Drain).phase == Phase::Stopped
        }),
{
    let requested = state.step(Event::Shutdown).step(Event::Poll(accept));
    lemma_step_keeps_consistent(state, Event::Shutdown);
    lemma_step_keeps_consistent(state.step(Event::Shutdown), Event::Poll(accept));
    lemma_sweep(requested, seen, seen.len());
    assert(sweep(seen).take(seen.len() as int) =~= sweep(seen));
    lemma_open_none(requested.after(sweep(seen)).connections);
}

} // verus!
