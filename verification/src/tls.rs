//! The TLS handshake stage: a handshake raced against a fixed timeout and
//! against the shutdown signal.

use rustls::ServerConnection;
use vstd::prelude::*;

use crate::progress::Progress;

verus! {

/// `rustls::ServerConnection`, carried through as an opaque value.
#[verifier::external_type_specification]
#[verifier::external_body]
pub struct ExServerConnection(ServerConnection);

// The server name that the client of a connection asked for, as
// `connection_server_name` finds it.
pub uninterp spec fn negotiated_server_name(connection: ServerConnection) -> Option<Seq<char>>;

// The name of the protocol version agreed on a connection, as
// `connection_version` finds it.
pub uninterp spec fn negotiated_version(connection: ServerConnection) -> Option<Seq<char>>;

// The name of the cipher suite agreed on a connection, as
// `connection_cipher_suite` finds it.
pub uninterp spec fn negotiated_cipher_suite(connection: ServerConnection) -> Option<Seq<char>>;

/// The characters of a text that may be missing.
pub open spec fn chars_of(text: Option<String>) -> Option<Seq<char>> {
    match text {
        Some(t) => Some(t@),
        None => None,
    }
}

/// `rustls::ServerConnection::server_name`, copied out: the name the client
/// asked for, if it sent one. It depends on the connection alone and goes by
/// the name `negotiated_server_name`.
#[verifier::external_body]
fn connection_server_name(connection: &ServerConnection) -> (name: Option<String>)
    ensures
        chars_of(name) == negotiated_server_name(*connection),
{
    Some(connection.server_name()?.to_owned())
}

/// `rustls::CommonState::protocol_version` and `ProtocolVersion::as_str`,
/// copied out: the name of the negotiated protocol version, if one is
/// agreed and rustls has a name for it. It depends on the connection alone
/// and goes by the name `negotiated_version`.
#[verifier::external_body]
fn connection_version(connection: &ServerConnection) -> (name: Option<String>)
    ensures
        chars_of(name) == negotiated_version(*connection),
{
    Some(connection.protocol_version()?.as_str()?.to_owned())
}

/// `rustls::CommonState::negotiated_cipher_suite` and
/// `CipherSuite::as_str`, copied out: the name of the negotiated cipher
/// suite, if one is agreed and rustls has a name for it. It depends on the
/// connection alone and goes by the name `negotiated_cipher_suite`.
#[verifier::external_body]
fn connection_cipher_suite(connection: &ServerConnection) -> (name: Option<String>)
    ensures
        chars_of(name) == negotiated_cipher_suite(*connection),
{
    Some(connection.negotiated_cipher_suite()?.suite().as_str()?.to_owned())
}

/// How long a handshake may take, in seconds.
pub const HANDSHAKE_TIMEOUT_SECS: u64 = 10;

/// The text of a negotiated parameter, empty where there is none.
pub open spec fn text_or_empty(text: Option<String>) -> Seq<char> {
    chars_or_empty(chars_of(text))
}

/// The characters of a negotiated parameter, none where there is none.
pub open spec fn chars_or_empty(chars: Option<Seq<char>>) -> Seq<char> {
    match chars {
        Some(c) => c,
        None => Seq::empty(),
    }
}

/// What was negotiated in a handshake. It is kept for observability and
/// decides nothing.
#[derive(Clone, Debug, PartialEq, Eq)]
pub struct SessionInfo {
    pub server_name: String,
    pub version: String,
    pub cipher_suite: String,
}

impl SessionInfo {
    /// The negotiated parameters, each empty where the session has none.
    pub fn from_parts(
        server_name: Option<String>,
        version: Option<String>,
        cipher_suite: Option<String>,
    ) -> (info: SessionInfo)
        ensures
            info.server_name@ == text_or_empty(server_name),
            info.version@ == text_or_empty(version),
            info.cipher_suite@ == text_or_empty(cipher_suite),
    {
        SessionInfo {
            server_name: match server_name {
                Some(name) => name,
                None => String::new(),
            },
            version: match version {
                Some(name) => name,
                None => String::new(),
            },
            cipher_suite: match cipher_suite {
                Some(name) => name,
                None => String::new(),
            },
        }
    }

    /// The parameters of a connection whose handshake has completed: the
    /// server name, the protocol version and the cipher suite that the
    /// connection has negotiated, each empty where it has none.
    pub fn of(connection: &ServerConnection) -> (info: SessionInfo)
        ensures
            info.server_name@ == chars_or_empty(negotiated_server_name(*connection)),
            info.version@ == chars_or_empty(negotiated_version(*connection)),
            info.cipher_suite@ == chars_or_empty(negotiated_cipher_suite(*connection)),
    {
        SessionInfo::from_parts(
            connection_server_name(connection),
            connection_version(connection),
            connection_cipher_suite(connection),
        )
    }
}

/// What the TLS engine reported when the handshake stopped.
#[derive(Clone, Debug, PartialEq, Eq)]
pub enum Handshake {
    Failed,
    Completed(SessionInfo),
}

/// How the handshake stage ended.
#[derive(Clone, Debug, PartialEq, Eq)]
pub enum TlsOutcome {
    /// The shutdown signal fired first. The handshake is abandoned, which
    /// is no error.
    Shutdown,
    /// The timeout elapsed first.
    TimedOut,
    /// The handshake completed and failed.
    Failed,
    /// The handshake completed and the transport is secured.
    Secured(SessionInfo),
}

impl TlsOutcome {
    /// Whether the outcome is reported as an error.
    pub open spec fn spec_is_fault(&self) -> bool {
        *self is TimedOut || *self is Failed
    }

    #[verifier::when_used_as_spec(spec_is_fault)]
    pub fn is_fault(&self) -> (fault: bool)
        ensures
            fault == self.spec_is_fault(),
    {
        match self {
            TlsOutcome::TimedOut => true,
            TlsOutcome::Failed => true,
            _ => false,
        }
    }
}

/// The outcome of the race, if it has one yet. When several sources are
/// ready in the same poll, shutdown wins over the timeout, and the timeout
/// wins over a handshake that has just completed.
pub open spec fn handshake_outcome(
    shutdown_ready: bool,
    timed_out: bool,
    handshake: Progress<Handshake>,
) -> Progress<TlsOutcome> {
    if shutdown_ready {
        Progress::Ready(TlsOutcome::Shutdown)
    } else if timed_out {
        Progress::Ready(TlsOutcome::TimedOut)
    } else {
        match handshake {
            Progress::Pending => Progress::Pending,
            Progress::Ready(Handshake::Failed) => Progress::Ready(TlsOutcome::Failed),
            Progress::Ready(Handshake::Completed(info)) => Progress::Ready(
                TlsOutcome::Secured(info),
            ),
        }
    }
}

/// The secured session that an outcome carries, if it carries one.
pub open spec fn secured_session(outcome: TlsOutcome) -> Option<SessionInfo> {
    match outcome {
        TlsOutcome::Secured(info) => Some(info),
        _ => None,
    }
}

/// A handshake whose time is up before the shutdown signal fires is
/// abandoned, whatever the handshake itself has come to: the outcome is a
/// timeout, which is reported as a fault and hands no session on.
pub proof fn law_timeout_abandons_handshake(handshake: Progress<Handshake>)
    ensures
        handshake_outcome(false, true, handshake) == Progress::Ready(TlsOutcome::TimedOut),
        secured_session(TlsOutcome::TimedOut) is None,
        TlsOutcome::TimedOut.is_fault(),
{
}

/// One handshake in progress.
#[derive(Clone, Copy, Debug)]
pub struct TlsAccept {
    timeout_secs: u64,
}

impl TlsAccept {
    pub closed spec fn spec_timeout_secs(&self) -> u64 {
        self.timeout_secs
    }

    /// A handshake that is given the fixed timeout.
    pub fn new() -> (accept: TlsAccept)
        ensures
            accept.timeout_secs() == HANDSHAKE_TIMEOUT_SECS,
    {
        TlsAccept { timeout_secs: HANDSHAKE_TIMEOUT_SECS }
    }

    /// The time the handshake is given, in seconds.
    #[verifier::when_used_as_spec(spec_timeout_secs)]
    pub fn timeout_secs(&self) -> (secs: u64)
        ensures
            secs == self.spec_timeout_secs(),
    {
        self.timeout_secs
    }

    /// Decides what a poll amounts to, given whether the shutdown signal
    /// has fired, whether the timeout has elapsed, and what the handshake
    /// reported.
    pub fn poll(
        &self,
        shutdown_ready: bool,
        timed_out: bool,
        handshake: Progress<Handshake>,
    ) -> (outcome: Progress<TlsOutcome>)
        ensures
            outcome == handshake_outcome(shutdown_ready, timed_out, handshake),
    {
        if shutdown_ready {
            return Progress::Ready(TlsOutcome::Shutdown);
        }
        if timed_out {
            return Progress::Ready(TlsOutcome::TimedOut);
        }
        match handshake {
            Progress::Pending => Progress::Pending,
            Progress::Ready(Handshake::Failed) => Progress::Ready(TlsOutcome::Failed),
            Progress::Ready(Handshake::Completed(info)) => Progress::Ready(
                TlsOutcome::Secured(info),
            ),
        }
    }
}

/// What the handshake stage hands on: the secured session, or no connection
/// when the handshake was abandoned, timed out or failed.
pub fn tls_accept(outcome: TlsOutcome) -> (session: Option<SessionInfo>)
    ensures
        session == secured_session(outcome),
{
    match outcome {
        TlsOutcome::Secured(info) => Some(info),
        _ => None,
    }
}

} // verus!
