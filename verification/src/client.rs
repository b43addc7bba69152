//! The connecting role: an endpoint that calls a server, and the session
//! that sends one message per stream over the connection it got.
//!
//! Both are written as decisions on what the transport reports: the
//! outcome of a handshake makes a session or an error, and a session starts
//! one exchange for each message.

use crate::address::SocketAddress;
use crate::exchange::ClientExchange;
use crate::exchange::ClientPhase;
use crate::protocol::close_reason;
use crate::protocol::close_reason_bytes;
use crate::protocol::echo_round_trip;
use crate::protocol::echo_text;
use crate::protocol::payload_reply;
use crate::protocol::payload_text;
use crate::protocol::request_payload;
use crate::protocol::fault_error;
use crate::protocol::StreamError;
use crate::protocol::StreamFault;
use crate::protocol::CLOSE_CODE;
use crate::protocol::DEFAULT_MAX_MESSAGE_BYTES;
use crate::server::ConnectionFault;
use crate::server::Termination;
use crate::server::ALERT_NO_APPLICATION_PROTOCOL;
use crate::server::CRYPTO_ERROR_BASE;
use vstd::prelude::*;
use vstd::string::StringExecFns;
use vstd::utf8::*;

verus! {

/// Why the transport would not even start a connection attempt.
#[derive(Clone, Copy, Debug, PartialEq, Eq, Structural)]
pub enum ConnectRefusal {
    /// The endpoint can no longer create connections.
    EndpointStopping,
    /// No connection identifier is left.
    CidsExhausted,
    /// The expected server name is malformed.
    InvalidServerName,
    /// The remote address cannot be called: port zero, say.
    InvalidRemoteAddress,
    /// The endpoint was given no client configuration.
    NoDefaultClientConfig,
    /// The endpoint does not support the configured version.
    UnsupportedVersion,
}

/// What became of a connection attempt.
#[derive(Clone, Copy, Debug, PartialEq, Eq, Structural)]
pub enum HandshakeOutcome {
    /// The handshake completed.
    Established,
    /// The attempt was refused before anything was sent.
    Refused(ConnectRefusal),
    /// The handshake failed.
    Failed(ConnectionFault),
}

/// Why `connect` failed.
#[derive(Clone, Copy, Debug, PartialEq, Eq, Structural)]
pub enum ConnectError {
    /// The attempt was refused before anything was sent.
    Refused(ConnectRefusal),
    /// Nobody answered before the handshake timed out.
    TimedOut,
    /// The peer speaks another application protocol.
    ProtocolMismatch,
    /// The handshake failed for another reason.
    Handshake(ConnectionFault),
}

/// Why a session would not send, or could not deliver a response.
#[derive(Clone, Copy, Debug, PartialEq, Eq, Structural)]
pub enum SessionError {
    /// This side has closed the session.
    ConnectionClosed,
    /// The connection ended, and how: in good order, if the peer's
    /// application closed it, else by a failure.
    ConnectionEnded(Termination),
    /// The exchange failed on its stream; the connection goes on.
    Stream(StreamError),
}

/// Where a session stands.
#[derive(Clone, Copy, Debug, PartialEq, Eq, Structural)]
pub enum SessionState {
    /// Messages can be sent.
    Open,
    /// This side closed the session.
    ClosedLocally,
    /// The connection ended otherwise, and how.
    Ended(Termination),
}

/// The error that a session reports for the failure of an exchange: the end
/// of the connection as such, anything else as a failure of the stream.
pub open spec fn session_error(error: StreamError) -> SessionError {
    match error {
        StreamError::ConnectionEnded(end) => SessionError::ConnectionEnded(end),
        _ => SessionError::Stream(error),
    }
}

/// Names the error that a session reports for the failure of an exchange.
pub fn to_session_error(error: StreamError) -> (reported: SessionError)
    ensures
        reported == session_error(error),
{
    match error {
        StreamError::ConnectionEnded(end) => SessionError::ConnectionEnded(end),
        _ => SessionError::Stream(error),
    }
}

/// The error that a session which is not open answers with.
pub open spec fn refusal_of(state: SessionState) -> SessionError {
    match state {
        SessionState::Ended(end) => SessionError::ConnectionEnded(end),
        _ => SessionError::ConnectionClosed,
    }
}

/// The state of a session after an exchange failed with `error`: the end of
/// the connection ends an open session, and nothing else changes it.
pub open spec fn state_after_failure(state: SessionState, error: SessionError) -> SessionState {
    match (state, error) {
        (SessionState::Open, SessionError::ConnectionEnded(end)) => SessionState::Ended(end),
        _ => state,
    }
}

/// Whether a fault says that the peer accepted none of the application
/// protocols on offer: the handshake failed with the TLS alert for it,
/// whichever side reports the failure.
pub open spec fn is_protocol_mismatch(fault: ConnectionFault) -> bool {
    match fault {
        ConnectionFault::TransportError { code } => code == CRYPTO_ERROR_BASE
            + ALERT_NO_APPLICATION_PROTOCOL,
        ConnectionFault::ConnectionClosed { code } => code == CRYPTO_ERROR_BASE
            + ALERT_NO_APPLICATION_PROTOCOL,
        _ => false,
    }
}

/// The error that a failed handshake is reported as.
pub open spec fn handshake_error(fault: ConnectionFault) -> ConnectError {
    if fault == ConnectionFault::TimedOut {
        ConnectError::TimedOut
    } else if is_protocol_mismatch(fault) {
        ConnectError::ProtocolMismatch
    } else {
        ConnectError::Handshake(fault)
    }
}

/// The error that an attempt's outcome is reported as, if it is one.
pub open spec fn connect_error(outcome: HandshakeOutcome) -> Option<ConnectError> {
    match outcome {
        HandshakeOutcome::Established => None,
        HandshakeOutcome::Refused(refusal) => Some(ConnectError::Refused(refusal)),
        HandshakeOutcome::Failed(fault) => Some(handshake_error(fault)),
    }
}

/// Names the error of a failed handshake.
pub fn classify_handshake(fault: ConnectionFault) -> (error: ConnectError)
    ensures
        error == handshake_error(fault),
{
    match fault {
        ConnectionFault::TimedOut => ConnectError::TimedOut,
        ConnectionFault::TransportError { code } => {
            if code == CRYPTO_ERROR_BASE + ALERT_NO_APPLICATION_PROTOCOL {
                ConnectError::ProtocolMismatch
            } else {
                ConnectError::Handshake(fault)
            }
        },
        ConnectionFault::ConnectionClosed { code } => {
            if code == CRYPTO_ERROR_BASE + ALERT_NO_APPLICATION_PROTOCOL {
                ConnectError::ProtocolMismatch
            } else {
                ConnectError::Handshake(fault)
            }
        },
        _ => ConnectError::Handshake(fault),
    }
}

/// A connecting endpoint, bound to a local address.
#[derive(Clone, Copy, Debug, PartialEq, Eq, Structural)]
pub struct QuicClient {
    local_addr: SocketAddress,
}

/// The close that a session sends to its peer.
#[derive(Clone, Debug)]
pub struct CloseFrame {
    pub code: u32,
    pub reason: Vec<u8>,
}

/// An established connection to a server, seen from the side that called.
#[derive(Debug)]
pub struct ClientConnection {
    remote: SocketAddress,
    server_name: String,
    max_response_bytes: usize,
    state: SessionState,
}

impl QuicClient {
    /// The address that the endpoint is bound to.
    pub closed spec fn spec_local_addr(&self) -> SocketAddress {
        self.local_addr
    }

    /// The client of an endpoint that has just been bound to `bind_addr`.
    pub fn new(bind_addr: SocketAddress) -> (client: QuicClient)
        ensures
            client.spec_local_addr() == bind_addr,
    {
        QuicClient { local_addr: bind_addr }
    }

    /// The address that the endpoint is bound to.
    #[verifier::when_used_as_spec(spec_local_addr)]
    pub fn local_addr(&self) -> (addr: SocketAddress)
        ensures
            addr == self.spec_local_addr(),
    {
        self.local_addr
    }

    /// The session that an attempt to reach `server_addr` under the name
    /// `server_name` came to: an open one that reads responses up to the
    /// default limit if the handshake completed, else the error that says
    /// why there is none.
    pub fn connect(&self, server_addr: SocketAddress, server_name: &str, outcome: HandshakeOutcome) -> (r:
        Result<ClientConnection, ConnectError>)
        ensures
            match connect_error(outcome) {
                None => r is Ok && r->Ok_0.spec_remote_address() == server_addr
                    && r->Ok_0.spec_server_name() == server_name@ && r->Ok_0.spec_limit()
                    == DEFAULT_MAX_MESSAGE_BYTES && r->Ok_0.spec_state() == SessionState::Open,
                Some(e) => r == Err::<ClientConnection, ConnectError>(e),
            },
    {
        match outcome {
            HandshakeOutcome::Established => Ok(
                ClientConnection {
                    remote: server_addr,
                    server_name: String::from_str(server_name),
                    max_response_bytes: DEFAULT_MAX_MESSAGE_BYTES,
                    state: SessionState::Open,
                },
            ),
            HandshakeOutcome::Refused(refusal) => Err(ConnectError::Refused(refusal)),
            HandshakeOutcome::Failed(fault) => Err(classify_handshake(fault)),
        }
    }
}

/// Whether `after` and `result` are what `close` makes of the session
/// `before`: an open session is closed and owes its peer the fixed close; a
/// session that is not open stays as it is and reports why it is not.
pub open spec fn closes(
    before: ClientConnection,
    after: ClientConnection,
    result: Result<CloseFrame, SessionError>,
) -> bool {
    &&& after.spec_remote_address() == before.spec_remote_address()
    &&& after.spec_server_name() == before.spec_server_name()
    &&& after.spec_limit() == before.spec_limit()
    &&& if before.spec_state() == SessionState::Open {
        after.spec_state() == SessionState::ClosedLocally && result is Ok && result->Ok_0.code
            == CLOSE_CODE && result->Ok_0.reason@ == close_reason_bytes()
    } else {
        after.spec_state() == before.spec_state() && result == Err::<CloseFrame, SessionError>(
            refusal_of(before.spec_state()),
        )
    }
}

impl ClientConnection {
    /// The address of the server.
    pub closed spec fn spec_remote_address(&self) -> SocketAddress {
        self.remote
    }

    /// The name that the server was expected to present.
    pub closed spec fn spec_server_name(&self) -> Seq<char> {
        self.server_name@
    }

    /// The largest response, in bytes, that the session reads.
    pub closed spec fn spec_limit(&self) -> usize {
        self.max_response_bytes
    }

    /// Where the session stands.
    pub closed spec fn spec_state(&self) -> SessionState {
        self.state
    }

    /// Whether the session is closed, by either side or by a failure.
    pub open spec fn spec_is_closed(&self) -> bool {
        self.spec_state() != SessionState::Open
    }

    /// The address of the server.
    #[verifier::when_used_as_spec(spec_remote_address)]
    pub fn remote_address(&self) -> (addr: SocketAddress)
        ensures
            addr == self.spec_remote_address(),
    {
        self.remote
    }

    /// The largest response, in bytes, that the session reads.
    #[verifier::when_used_as_spec(spec_limit)]
    pub fn limit(&self) -> (max_bytes: usize)
        ensures
            max_bytes == self.spec_limit(),
    {
        self.max_response_bytes
    }

    /// Where the session stands.
    #[verifier::when_used_as_spec(spec_state)]
    pub fn state(&self) -> (state: SessionState)
        ensures
            state == self.spec_state(),
    {
        self.state
    }

    /// Whether the session is closed, by either side or by a failure.
    #[verifier::when_used_as_spec(spec_is_closed)]
    pub fn is_closed(&self) -> (closed: bool)
        ensures
            closed == self.spec_is_closed(),
    {
        match self.state {
            SessionState::Open => false,
            _ => true,
        }
    }

    /// The same session with another limit on the size of a response.
    pub fn with_limit(self, max_bytes: usize) -> (session: ClientConnection)
        ensures
            session.spec_limit() == max_bytes,
            session.spec_remote_address() == self.spec_remote_address(),
            session.spec_server_name() == self.spec_server_name(),
            session.spec_state() == self.spec_state(),
    {
        ClientConnection {
            remote: self.remote,
            server_name: self.server_name,
            max_response_bytes: max_bytes,
            state: self.state,
        }
    }

    /// Starts the exchange that carries `message`: its payload is the UTF-8
    /// of the message and nothing else, its answer is read under the
    /// session's limit, and its stream is yet to be opened. A session that
    /// is not open starts nothing and says why: this side closed it, or the
    /// connection ended, in good order or not.
    pub fn send_message(&self, message: &str) -> (r: Result<ClientExchange, SessionError>)
        ensures
            self.spec_state() != SessionState::Open ==> r == Err::<ClientExchange, SessionError>(
                refusal_of(self.spec_state()),
            ),
            self.spec_state() == SessionState::Open ==> r is Ok && r->Ok_0.spec_payload()
                == encode_utf8(message@) && r->Ok_0.spec_limit() == self.spec_limit()
                && r->Ok_0.spec_phase() == ClientPhase::Opening,
    {
        match self.state {
            SessionState::Open => Ok(
                ClientExchange::new(request_payload(message), self.max_response_bytes),
            ),
            SessionState::ClosedLocally => Err(SessionError::ConnectionClosed),
            SessionState::Ended(end) => Err(SessionError::ConnectionEnded(end)),
        }
    }

    /// Closes the session. The first call on an open session gives the close
    /// to send to the peer; every later call changes nothing and reports
    /// that the session was closed.
    pub fn close(&mut self) -> (r: Result<CloseFrame, SessionError>)
        ensures
            closes(*old(self), *final(self), r),
    {
        match self.state {
            SessionState::Open => {
                self.state = SessionState::ClosedLocally;
                Ok(CloseFrame { code: CLOSE_CODE, reason: close_reason() })
            },
            SessionState::ClosedLocally => Err(SessionError::ConnectionClosed),
            SessionState::Ended(end) => Err(SessionError::ConnectionEnded(end)),
        }
    }

    /// Takes note of the failure of an exchange. Where it says that the
    /// connection ended, an open session is over from now on and answers
    /// every later call with that end; any other failure leaves the session
    /// as it is, open for the next message.
    pub fn exchange_failed(&mut self, error: SessionError)
        ensures
            final(self).spec_state() == state_after_failure(old(self).spec_state(), error),
            final(self).spec_remote_address() == old(self).spec_remote_address(),
            final(self).spec_server_name() == old(self).spec_server_name(),
            final(self).spec_limit() == old(self).spec_limit(),
    {
        match (self.state, error) {
            (SessionState::Open, SessionError::ConnectionEnded(end)) => {
                self.state = SessionState::Ended(end);
            },
            _ => {},
        }
    }
}

/// Closing a session twice: the second call changes nothing and reports
/// that the session is closed, as `ConnectionClosed` if the first call
/// closed it.
pub proof fn lemma_close_twice(
    s0: ClientConnection,
    s1: ClientConnection,
    r1: Result<CloseFrame, SessionError>,
    s2: ClientConnection,
    r2: Result<CloseFrame, SessionError>,
)
    requires
        closes(s0, s1, r1),
        closes(s1, s2, r2),
    ensures
        r2 is Err,
        s0.spec_state() == SessionState::Open ==> r2 == Err::<CloseFrame, SessionError>(
            SessionError::ConnectionClosed,
        ),
        s2.spec_state() == s1.spec_state(),
        s2.spec_is_closed(),
        s2.spec_remote_address() == s1.spec_remote_address(),
        s2.spec_server_name() == s1.spec_server_name(),
        s2.spec_limit() == s1.spec_limit(),
{
}

/// After the peer's application closed the connection, the exchange that
/// was under way and every later call of the session report that end in
/// good order, which no failure of the transport is reported as.
pub proof fn lemma_peer_close_is_reported(
    before: ClientConnection,
    code: u64,
    after: ClientConnection,
    other: ConnectionFault,
)
    requires
        before.spec_state() == SessionState::Open,
        after.spec_state() == state_after_failure(
            before.spec_state(),
            session_error(
                fault_error(
                    StreamFault::ConnectionLost(ConnectionFault::ApplicationClosed { code }),
                ),
            ),
        ),
        !(other is ApplicationClosed),
    ensures
        after.spec_state() == SessionState::Ended(Termination::PeerClosed),
        refusal_of(after.spec_state()) == SessionError::ConnectionEnded(Termination::PeerClosed),
        session_error(fault_error(StreamFault::ConnectionLost(other)))
            == SessionError::ConnectionEnded(Termination::Failed(other)),
        session_error(fault_error(StreamFault::ConnectionLost(other))) != refusal_of(
            after.spec_state(),
        ),
{
}

/// What a session sends for `message` reaches a server as a well-formed
/// payload, is answered there with the marker followed by `message`, and
/// that answer, read under the session's limit, is delivered as exactly
/// this text. The server's limit must admit the message and the session's
/// limit the answer, which is six bytes longer.
pub proof fn lemma_send_returns_echo(
    message: Seq<char>,
    server_limit: usize,
    session_limit: usize,
)
    requires
        encode_utf8(message).len() <= server_limit,
        encode_utf8(message).len() + 6 <= session_limit,
    ensures
        payload_reply(encode_utf8(message), server_limit) is Ok,
        payload_text(payload_reply(encode_utf8(message), server_limit)->Ok_0, session_limit)
            == Ok::<Seq<char>, StreamError>(echo_text(message)),
{
    echo_round_trip(message, server_limit);
    echo_round_trip(message, session_limit);
}

} // verus!
