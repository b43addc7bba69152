//! How far a failure reaches. A failure of one stream, one handshake or one
//! connection stays where it happened; only a server that cannot be set up
//! stops the process.

use crate::client::SessionError;
use crate::identity::BootstrapError;
use crate::protocol::StreamError;
use crate::server::ConnectionFault;
use crate::server::Termination;
use vstd::prelude::*;

verus! {

/// Everything that can go wrong, by where it happens.
#[derive(Clone, Debug, PartialEq, Eq)]
pub enum Failure {
    /// The socket could not be bound.
    Bind,
    /// The server's identity or configuration could not be made.
    Bootstrap(BootstrapError),
    /// An inbound attempt failed its handshake.
    Handshake(ConnectionFault),
    /// One stream's exchange failed.
    Stream(StreamError),
    /// A connection ended.
    Connection(Termination),
    /// The channel of outbound texts is closed.
    Channel,
}

/// What a failure brings down.
#[derive(Clone, Copy, Debug, PartialEq, Eq, Structural)]
pub enum Scope {
    /// The whole process: startup is aborted.
    Process,
    /// The one attempt to connect; the endpoint goes on accepting.
    Attempt,
    /// The one stream; its connection goes on.
    Stream,
    /// The one connection; the endpoint and other connections go on.
    Connection,
    /// The loop that sends queued texts, which ends in good order.
    Driver,
}

/// What a failure brings down.
pub open spec fn scope_of(failure: Failure) -> Scope {
    match failure {
        Failure::Bind => Scope::Process,
        Failure::Bootstrap(_) => Scope::Process,
        Failure::Handshake(_) => Scope::Attempt,
        Failure::Stream(StreamError::ConnectionEnded(_)) => Scope::Connection,
        Failure::Stream(_) => Scope::Stream,
        Failure::Connection(_) => Scope::Connection,
        Failure::Channel => Scope::Driver,
    }
}

/// Whether a failure is written to the operator's log. The two expected
/// ends are not: a peer that closed its connection, wherever that was
/// noticed, and a closed channel.
pub open spec fn is_reported(failure: Failure) -> bool {
    match failure {
        Failure::Connection(Termination::PeerClosed) => false,
        Failure::Stream(StreamError::ConnectionEnded(Termination::PeerClosed)) => false,
        Failure::Channel => false,
        _ => true,
    }
}

/// The failure that an error of a session stands for: the end of the
/// connection, a close by this side, which the transport knows as a local
/// close, or the failure of one stream.
pub open spec fn session_failure(error: SessionError) -> Failure {
    match error {
        SessionError::ConnectionClosed => Failure::Connection(
            Termination::Failed(ConnectionFault::LocallyClosed),
        ),
        SessionError::ConnectionEnded(end) => Failure::Connection(end),
        SessionError::Stream(e) => Failure::Stream(e),
    }
}

impl Failure {
    /// What this failure brings down.
    pub fn scope(&self) -> (scope: Scope)
        ensures
            scope == scope_of(*self),
    {
        match self {
            Failure::Bind => Scope::Process,
            Failure::Bootstrap(_) => Scope::Process,
            Failure::Handshake(_) => Scope::Attempt,
            Failure::Stream(StreamError::ConnectionEnded(_)) => Scope::Connection,
            Failure::Stream(_) => Scope::Stream,
            Failure::Connection(_) => Scope::Connection,
            Failure::Channel => Scope::Driver,
        }
    }

    /// The failure that an error of a session stands for.
    pub fn of_session(error: SessionError) -> (failure: Failure)
        ensures
            failure == session_failure(error),
    {
        match error {
            SessionError::ConnectionClosed => Failure::Connection(
                Termination::Failed(ConnectionFault::LocallyClosed),
            ),
            SessionError::ConnectionEnded(end) => Failure::Connection(end),
            SessionError::Stream(e) => Failure::Stream(e),
        }
    }

    /// Whether this failure stops the process.
    pub fn is_fatal(&self) -> (fatal: bool)
        ensures
            fatal == (scope_of(*self) == Scope::Process),
            fatal == (*self is Bind || *self is Bootstrap),
    {
        match self {
            Failure::Bind => true,
            Failure::Bootstrap(_) => true,
            _ => false,
        }
    }

    /// Whether this failure is written to the operator's log.
    pub fn is_logged(&self) -> (logged: bool)
        ensures
            logged == is_reported(*self),
    {
        match self {
            Failure::Connection(Termination::PeerClosed) => false,
            Failure::Stream(StreamError::ConnectionEnded(Termination::PeerClosed)) => false,
            Failure::Channel => false,
            _ => true,
        }
    }
}

} // verus!
