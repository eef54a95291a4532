//! The connection serving stage: protocol completion raced against the
//! shutdown signal, and the verdict on how a connection ended.

use hyper::Error as ProtocolError;
use vstd::prelude::*;

use crate::pool::Permit;
use crate::pool::Released;
use crate::progress::Progress;

verus! {

/// hyper's `Error`, carried through as an opaque value.
#[verifier::external_type_specification]
#[verifier::external_body]
pub struct ExProtocolError(ProtocolError);

/// What kind of I/O error lies under a failure of the transport.
#[derive(Clone, Copy, Debug, PartialEq, Eq, Structural)]
pub enum IoKind {
    /// The stream ended where more was expected.
    UnexpectedEof,
    /// Any other kind.
    Other,
}

// The kind of I/O error that lies under an error of the protocol engine,
// as `error_io_kind` finds it.
pub uninterp spec fn transport_io_kind(error: ProtocolError) -> Option<IoKind>;

/// `std::error::Error::source` as hyper's `Error` implements it, with the
/// cause downcast to `std::io::Error` and its `kind` told apart: `None`
/// where the error carries no cause or the cause is no I/O error. What
/// comes back depends on the error alone and goes by the name
/// `transport_io_kind`.
#[verifier::external_body]
fn error_io_kind(error: &ProtocolError) -> (kind: Option<IoKind>)
    ensures
        kind == transport_io_kind(*error),
{
    let cause = std::error::Error::source(error)?;
    let io = cause.downcast_ref::<std::io::Error>()?;
    Some(
        match io.kind() {
            std::io::ErrorKind::UnexpectedEof => IoKind::UnexpectedEof,
            _ => IoKind::Other,
        },
    )
}

/// What lies under an error of the protocol engine.
#[derive(Clone, Copy, Debug, PartialEq, Eq, Structural)]
pub enum Cause {
    /// The peer closed the transport without a clean shutdown.
    PeerClosed,
    /// Anything else.
    Other,
}

impl Cause {
    /// The cause, given the I/O error that lies under the failure, if one
    /// does: an unexpected end of the stream is the peer going away.
    pub open spec fn spec_from_transport(io: Option<IoKind>) -> Cause {
        if io == Some(IoKind::UnexpectedEof) {
            Cause::PeerClosed
        } else {
            Cause::Other
        }
    }

    /// The cause, given the I/O error that lies under the failure, if one
    /// does: an unexpected end of the stream is the peer going away.
    #[verifier::when_used_as_spec(spec_from_transport)]
    pub fn from_transport(io: Option<IoKind>) -> (cause: Cause)
        ensures
            cause == Cause::spec_from_transport(io),
    {
        match io {
            Some(IoKind::UnexpectedEof) => Cause::PeerClosed,
            _ => Cause::Other,
        }
    }

    /// The cause of an error of the protocol engine, read off the error's
    /// source and not off its text: the peer went away exactly if an I/O
    /// error of the kind `UnexpectedEof` lies under the error.
    pub fn of(error: &ProtocolError) -> (cause: Cause)
        ensures
            cause == Cause::from_transport(transport_io_kind(*error)),
            cause == Cause::PeerClosed <==> transport_io_kind(*error) == Some(
                IoKind::UnexpectedEof,
            ),
    {
        Cause::from_transport(error_io_kind(error))
    }
}

/// How the protocol engine finished with a connection.
#[derive(Clone, Copy, Debug, PartialEq, Eq, Structural)]
pub enum Served {
    Clean,
    Failed(Cause),
}

/// How a connection ended.
#[derive(Clone, Copy, Debug, PartialEq, Eq, Structural)]
pub enum Completion {
    /// The shutdown signal fired first; the connection is abandoned.
    Interrupted,
    /// The protocol engine finished without error.
    Finished,
    /// The peer closed its transport abruptly, which is an ordinary end.
    PeerClosed,
    /// The protocol engine failed.
    Failed,
}

impl Completion {
    /// Whether the end is reported as an error.
    pub open spec fn spec_is_fault(self) -> bool {
        self == Completion::Failed
    }

    #[verifier::when_used_as_spec(spec_is_fault)]
    pub fn is_fault(self) -> (fault: bool)
        ensures
            fault == self.spec_is_fault(),
    {
        match self {
            Completion::Failed => true,
            _ => false,
        }
    }
}

/// The end of a connection, if it has one yet: shutdown wins over whatever
/// the protocol engine reports in the same poll.
pub open spec fn completion(shutdown_ready: bool, conn: Progress<Served>) -> Option<Completion> {
    if shutdown_ready {
        Some(Completion::Interrupted)
    } else {
        match conn {
            Progress::Pending => None,
            Progress::Ready(Served::Clean) => Some(Completion::Finished),
            Progress::Ready(Served::Failed(Cause::PeerClosed)) => Some(Completion::PeerClosed),
            Progress::Ready(Served::Failed(Cause::Other)) => Some(Completion::Failed),
        }
    }
}

/// A failure of the protocol engine counts as a fault unless an unexpected
/// end of the transport lies under it: a peer that closes abruptly ends its
/// connection in the ordinary way.
pub proof fn law_abrupt_close_is_no_fault(io: Option<IoKind>)
    ensures
        completion(
            false,
            Progress::Ready(Served::Failed(Cause::from_transport(io))),
        ) matches Some(end) && (end.is_fault() <==> io != Some(IoKind::UnexpectedEof)),
        !Completion::PeerClosed.is_fault(),
        !Completion::Finished.is_fault(),
        !Completion::Interrupted.is_fault(),
{
}

/// One connection being served. It owns the connection's permit for as long
/// as the connection lasts.
#[derive(Debug)]
pub struct Http2 {
    permit: Permit,
}

/// What a poll of the serving stage leaves behind.
pub enum Http2Step {
    /// Nothing is ready; the connection goes on.
    Pending(Http2),
    /// The connection has ended, and its permit is back in the pool.
    Done(Completion, Released),
}

impl Http2 {
    pub closed spec fn permit(&self) -> Permit {
        self.permit
    }

    /// The serving stage of a connection that holds `permit`.
    pub fn new(permit: Permit) -> (http2: Http2)
        ensures
            http2.permit() == permit,
    {
        Http2 { permit }
    }

    /// Decides what a poll amounts to, given whether the shutdown signal
    /// has fired and what the protocol engine reported. Once the connection
    /// has ended, by whichever path, the permit has been released.
    pub fn poll(self, shutdown_ready: bool, conn: Progress<Served>) -> (step: Http2Step)
        ensures
            match completion(shutdown_ready, conn) {
                None => step == Http2Step::Pending(self),
                Some(end) => step matches Http2Step::Done(completion, receipt) && completion == end
                    && receipt.permit() == self.permit(),
            },
    {
        if shutdown_ready {
            return Http2Step::Done(Completion::Interrupted, self.permit.release());
        }
        match conn {
            Progress::Pending => Http2Step::Pending(self),
            Progress::Ready(Served::Clean) => Http2Step::Done(
                Completion::Finished,
                self.permit.release(),
            ),
            Progress::Ready(Served::Failed(Cause::PeerClosed)) => Http2Step::Done(
                Completion::PeerClosed,
                self.permit.release(),
            ),
            Progress::Ready(Served::Failed(Cause::Other)) => Http2Step::Done(
                Completion::Failed,
                self.permit.release(),
            ),
        }
    }
}

} // verus!
