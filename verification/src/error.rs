//! What can go wrong while a server is set up.

use vstd::prelude::*;

verus! {

/// `std::io::Error`, carried through as an opaque value.
#[verifier::external_type_specification]
#[verifier::external_body]
pub struct ExIoError(std::io::Error);

/// A failure to set up the listening socket. Nothing else is ever reported
/// to the caller of `Server::run`.
#[derive(Debug)]
pub enum Error {
    /// The address could not be bound.
    Bind(std::io::Error),
    /// The bound socket could not tell its local address.
    LocalAddr(std::io::Error),
}

impl Error {
    /// The text that describes the failure.
    pub open spec fn spec_message(&self) -> Seq<char> {
        match self {
            Error::Bind(_) => "TcpListener::bind() failed"@,
            Error::LocalAddr(_) => "TcpListener::local_addr() failed"@,
        }
    }

    /// The I/O error that lies under the failure.
    pub open spec fn spec_source(&self) -> std::io::Error {
        match self {
            Error::Bind(source) => *source,
            Error::LocalAddr(source) => *source,
        }
    }

    /// The text that describes the failure.
    pub fn message(&self) -> (text: String)
        ensures
            text@ == self.spec_message(),
    {
        match self {
            Error::Bind(_) => "TcpListener::bind() failed".to_owned(),
            Error::LocalAddr(_) => "TcpListener::local_addr() failed".to_owned(),
        }
    }

    /// The I/O error that lies under the failure.
    pub fn source(&self) -> (source: Option<&std::io::Error>)
        ensures
            source == Some(&self.spec_source()),
    {
        match self {
            Error::Bind(source) => Some(source),
            Error::LocalAddr(source) => Some(source),
        }
    }
}

} // verus!
