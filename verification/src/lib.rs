//! The connection lifecycle of a TLS-terminating HTTP/2 server: admission
//! of incoming connections under a hard cap, the time-bounded TLS handshake,
//! the serving of each connection, and the shutdown that lets connections in
//! flight drain.
//!
//! The library decides and the embedding runtime acts. Every stage is a
//! function from what was observed (which sources are ready, what the pool
//! answered, how the protocol engine ended) to what is to be done, and
//! `lifecycle` states what follows for a server as a whole.

pub mod config;
pub mod error;
pub mod handle;
pub mod http2;
pub mod lifecycle;
pub mod pool;
pub mod progress;
pub mod server;
pub mod signal;
pub mod stats;
pub mod tcp;
pub mod tcp_session;
pub mod tls;

pub use crate::config::Config;
pub use crate::error::Error;
pub use crate::handle::Handle;
pub use crate::pool::AdmissionPool;
pub use crate::progress::Progress;
pub use crate::server::Server;
pub use crate::stats::Stats;
