//! One accepted connection, from its admission to its end.

use vstd::prelude::*;

use crate::http2::completion;
use crate::http2::Completion;
use crate::http2::Http2;
use crate::http2::Http2Step;
use crate::http2::Served;
use crate::pool::Permit;
use crate::pool::Released;
use crate::progress::Progress;
use crate::tls::handshake_outcome;
use crate::tls::secured_session;
use crate::tls::Handshake;
use crate::tls::SessionInfo;
use crate::tls::TlsAccept;
use crate::tls::TlsOutcome;

verus! {

/// Where a connection task stands.
#[derive(Clone, Copy, Debug, PartialEq, Eq, Structural)]
pub enum Stage {
    /// The TLS handshake is under way.
    Handshaking,
    /// The protocol engine serves the transport.
    Serving,
    /// The task has ended and its permit is back in the pool.
    Closed,
}

/// What a connection task finds when it is polled.
pub struct Readiness {
    /// Whether the shutdown signal has fired.
    pub shutdown_ready: bool,
    /// Whether the time for the handshake is up.
    pub timed_out: bool,
    /// What the handshake reports.
    pub handshake: Progress<Handshake>,
    /// What the protocol engine reports.
    pub conn: Progress<Served>,
}

/// The stage a connection starts in.
pub open spec fn first_stage(secure: bool) -> Stage {
    if secure {
        Stage::Handshaking
    } else {
        Stage::Serving
    }
}

/// The stage of a connection after a poll. A handshake that secures the
/// transport leads on to serving; every other end of either stage closes
/// the connection, and a closed connection stays closed.
pub open spec fn stage_after(stage: Stage, seen: Readiness) -> Stage {
    match stage {
        Stage::Handshaking => match handshake_outcome(
            seen.shutdown_ready,
            seen.timed_out,
            seen.handshake,
        ) {
            Progress::Pending => Stage::Handshaking,
            Progress::Ready(outcome) => if secured_session(outcome) is Some {
                Stage::Serving
            } else {
                Stage::Closed
            },
        },
        Stage::Serving => if completion(seen.shutdown_ready, seen.conn) is Some {
            Stage::Closed
        } else {
            Stage::Serving
        },
        Stage::Closed => Stage::Closed,
    }
}

/// A connection task that is polled after the shutdown signal has fired is
/// closed by that poll, whatever stage it is in and whatever else is ready.
pub proof fn law_shutdown_closes_every_connection(stage: Stage, seen: Readiness)
    requires
        seen.shutdown_ready,
    ensures
        stage_after(stage, seen) == Stage::Closed,
{
}

/// With TLS configured, a connection is served only after a handshake that
/// completed with success, in time and before any shutdown.
pub proof fn law_served_only_when_secured(seen: Readiness)
    ensures
        stage_after(first_stage(true), seen) == Stage::Serving <==> (!seen.shutdown_ready
            && !seen.timed_out && seen.handshake matches Progress::Ready(Handshake::Completed(_))),
{
}

/// An admitted connection that has not been served yet. It owns the
/// connection's permit.
#[derive(Debug)]
pub struct TcpSession {
    permit: Permit,
    secure: bool,
}

/// How a connection came to its end.
#[derive(Clone, Debug, PartialEq, Eq)]
pub enum Ending {
    /// The handshake stage ended without a secured transport.
    NotSecured(TlsOutcome),
    /// The serving stage ended.
    Served(Completion),
}

/// A connection task between two polls.
pub enum SessionStep {
    /// The handshake stage is next, or under way.
    Handshake(TcpSession),
    /// The serving stage is next, or under way.
    Serve(Http2),
    /// The connection has ended, and its permit is back in the pool.
    Closed(Ending, Released),
}

impl SessionStep {
    /// The stage the connection is in.
    pub open spec fn stage(&self) -> Stage {
        match self {
            SessionStep::Handshake(_) => Stage::Handshaking,
            SessionStep::Serve(_) => Stage::Serving,
            SessionStep::Closed(_, _) => Stage::Closed,
        }
    }

    /// The permit the connection holds, or held until it ended.
    pub open spec fn permit(&self) -> Permit {
        match self {
            SessionStep::Handshake(session) => session.permit(),
            SessionStep::Serve(serving) => serving.permit(),
            SessionStep::Closed(_, receipt) => receipt.permit(),
        }
    }

    /// One poll of the connection task. A handshake that has an outcome
    /// leads on to serving or ends the connection; a serving stage that has
    /// come to an end ends the connection; whatever ends the connection
    /// gives its permit back; and nothing changes while nothing is ready.
    pub fn poll(self, seen: Readiness) -> (next: SessionStep)
        ensures
            next.stage() == stage_after(self.stage(), seen),
            next.permit() == self.permit(),
            next.stage() == self.stage() ==> next == self,
            self.stage() == Stage::Handshaking && next.stage() == Stage::Closed ==> (
            next matches SessionStep::Closed(ending, _) && handshake_outcome(
                seen.shutdown_ready,
                seen.timed_out,
                seen.handshake,
            ) matches Progress::Ready(outcome) && ending == Ending::NotSecured(outcome)),
            self.stage() == Stage::Serving && next.stage() == Stage::Closed ==> (
            next matches SessionStep::Closed(ending, _) && completion(seen.shutdown_ready, seen.conn)
                matches Some(end) && ending == Ending::Served(end)),
    {
        match self {
            SessionStep::Handshake(session) => {
                match TlsAccept::new().poll(seen.shutdown_ready, seen.timed_out, seen.handshake) {
                    Progress::Pending => SessionStep::Handshake(session),
                    Progress::Ready(TlsOutcome::Secured(_)) => SessionStep::Serve(session.serve()),
                    Progress::Ready(outcome) => SessionStep::Closed(
                        Ending::NotSecured(outcome),
                        session.close(),
                    ),
                }
            },
            SessionStep::Serve(serving) => match serving.poll(seen.shutdown_ready, seen.conn) {
                Http2Step::Pending(same) => SessionStep::Serve(same),
                Http2Step::Done(end, receipt) => SessionStep::Closed(Ending::Served(end), receipt),
            },
            SessionStep::Closed(ending, receipt) => SessionStep::Closed(ending, receipt),
        }
    }
}

impl TcpSession {
    pub closed spec fn permit(&self) -> Permit {
        self.permit
    }

    pub closed spec fn spec_is_secure(&self) -> bool {
        self.secure
    }

    /// A connection that holds `permit`, to be secured by TLS or not.
    pub fn new(permit: Permit, secure: bool) -> (session: TcpSession)
        ensures
            session.permit() == permit,
            session.is_secure() == secure,
    {
        TcpSession { permit, secure }
    }

    /// Whether the connection goes through a TLS handshake.
    #[verifier::when_used_as_spec(spec_is_secure)]
    pub fn is_secure(&self) -> (secure: bool)
        ensures
            secure == self.spec_is_secure(),
    {
        self.secure
    }

    /// Starts the connection: with TLS configured the handshake comes
    /// first, without it the serving stage starts at once. The permit moves
    /// on with the connection.
    pub fn run(self) -> (step: SessionStep)
        ensures
            self.is_secure() ==> step == SessionStep::Handshake(self),
            !self.is_secure() ==> (step matches SessionStep::Serve(http2) && http2.permit()
                == self.permit()),
            step.stage() == first_stage(self.is_secure()),
            step.permit() == self.permit(),
    {
        if self.secure {
            SessionStep::Handshake(self)
        } else {
            SessionStep::Serve(self.serve())
        }
    }

    /// Moves the connection on to its serving stage, permit and all.
    fn serve(self) -> (serving: Http2)
        ensures
            serving.permit() == self.permit(),
    {
        Http2::new(self.permit)
    }

    /// Ends the connection before it was served, and releases its permit.
    pub fn close(self) -> (receipt: Released)
        ensures
            receipt.permit() == self.permit(),
    {
        self.permit.release()
    }

    /// Goes on after the handshake stage: a secured session is served, and
    /// without one the connection ends here and its permit is released.
    pub fn secured(self, session: Option<SessionInfo>) -> (next: Result<Http2, Released>)
        ensures
            session is Some ==> (next matches Ok(serving) && serving.permit() == self.permit()),
            session is None ==> (next matches Err(receipt) && receipt.permit() == self.permit()),
    {
        match session {
            Some(_) => Ok(self.serve()),
            None => Err(self.close()),
        }
    }
}

} // verus!
