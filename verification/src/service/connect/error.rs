//! What can end a client session or the client listener.

use crate::state::client::Ipv4;
use crate::state::realm::RealmServerListError;
use vstd::prelude::*;
use vstd::std_specs::convert::FromSpecImpl;

verus! {

/// What the server reads of an I/O error.
#[derive(Debug, Clone, Copy, PartialEq, Eq, Structural)]
pub enum IoErrorKind {
    /// The peer reset the connection.
    ConnectionReset,
    /// Any other failure.
    Other,
}

/// An I/O failure: its kind, and its description for the log.
#[derive(Debug, Clone, PartialEq, Eq)]
pub struct IoError {
    pub kind: IoErrorKind,
    pub message: String,
}

/// How a step with a deadline failed.
#[derive(Debug, Clone, PartialEq, Eq)]
pub enum TimeoutError {
    /// The step itself failed.
    Inner(IoError),
    /// The deadline passed.
    Elapsed,
    /// The timer failed.
    Timer,
}

/// The protocol version that a client announces.
#[derive(Debug, Clone, Copy, PartialEq, Eq, Hash, Structural)]
pub struct Version {
    pub major: u8,
    pub minor: u8,
    pub patch: u8,
}

/// Why the client pool refused an operation.
#[derive(Debug, Clone, Copy, PartialEq, Eq, Structural)]
pub enum ClientPoolError {
    /// No client is admitted under the identifier.
    InexistentId,
    /// The server holds as many clients as it may.
    MaxCapacity,
    /// The address holds as many clients as one address may.
    MaxCapacityForIp(Ipv4),
}

/// A failure on the client's side of a session.
#[derive(Debug, Clone, PartialEq, Eq)]
pub enum ClientError {
    CannotResolveAddress(IoError),
    InvalidIpVersion,
    Connection(IoError),
    TimedOut,
    InvalidPacket(IoError),
    InvalidServerPacket(IoError),
    VersionMismatch { has: Version, expected: Version },
    UnknownPacket { header: Vec<u8> },
    MaxPacketsExceeded,
    RealmState(RealmServerListError),
    ClientState(ClientPoolError),
}

/// A failure on the server's side.
#[derive(Debug, Clone, PartialEq, Eq)]
pub enum ServerError {
    Abort,
    Bind(IoError),
    CannotResolveAddress(IoError),
    ClientRejected,
    CloseSignalAborted,
    Connection(IoError),
}

/// Any failure of the client plane.
#[derive(Debug, Clone, PartialEq, Eq)]
pub enum ConnectServiceError {
    Server(ServerError),
    Client(ClientError),
}

impl ConnectServiceError {
    /// The failure of a session by a failed step with a deadline: a
    /// connection error where the step itself failed, a timeout otherwise.
    pub open spec fn timed_out(error: TimeoutError) -> Self {
        match error {
            TimeoutError::Inner(io) => ConnectServiceError::Client(ClientError::Connection(io)),
            _ => ConnectServiceError::Client(ClientError::TimedOut),
        }
    }

    /// A failed step with a deadline ends the session as a connection error
    /// where the step itself failed, and as a timeout otherwise.
    pub fn from_client_timeout(error: TimeoutError) -> (result: Self)
        ensures
            result == Self::timed_out(error),
    {
        match error {
            TimeoutError::Inner(io) => ConnectServiceError::Client(ClientError::Connection(io)),
            _ => ConnectServiceError::Client(ClientError::TimedOut),
        }
    }

    /// Whether the peer reset the connection.
    pub open spec fn is_connection_reset(&self) -> bool {
        self matches ConnectServiceError::Client(ClientError::Connection(io)) && io.kind
            == IoErrorKind::ConnectionReset
    }

    /// Whether the server turned the client away.
    pub open spec fn is_rejection(&self) -> bool {
        self == ConnectServiceError::Server(ServerError::ClientRejected)
    }

    pub fn connection_reset_by_peer(&self) -> (reset: bool)
        ensures
            reset == self.is_connection_reset(),
    {
        match self {
            ConnectServiceError::Client(ClientError::Connection(io)) => {
                io.kind == IoErrorKind::ConnectionReset
            },
            _ => false,
        }
    }

    pub fn reject_by_server(&self) -> (rejected: bool)
        ensures
            rejected == self.is_rejection(),
    {
        match self {
            ConnectServiceError::Server(ServerError::ClientRejected) => true,
            _ => false,
        }
    }
}

impl From<ServerError> for ConnectServiceError {
    fn from(error: ServerError) -> (result: Self) {
        ConnectServiceError::Server(error)
    }
}

impl FromSpecImpl<ServerError> for ConnectServiceError {
    open spec fn obeys_from_spec() -> bool {
        true
    }

    open spec fn from_spec(error: ServerError) -> Self {
        ConnectServiceError::Server(error)
    }
}

impl From<ClientError> for ConnectServiceError {
    fn from(error: ClientError) -> (result: Self) {
        ConnectServiceError::Client(error)
    }
}

impl FromSpecImpl<ClientError> for ConnectServiceError {
    open spec fn obeys_from_spec() -> bool {
        true
    }

    open spec fn from_spec(error: ClientError) -> Self {
        ConnectServiceError::Client(error)
    }
}

/// The result of a step of the client plane.
pub type Result<T> = core::result::Result<T, ConnectServiceError>;

} // verus!
