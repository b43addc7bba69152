//! The listening role: the accept loop of an endpoint, and the handler that
//! serves the streams of one connection until that connection ends.
//!
//! Both are written as decisions on events. Whoever drives the transport
//! reports each event and performs the action that comes back.

use crate::address::SocketAddress;
use crate::protocol::answers;
use crate::protocol::serve_stream;
use crate::protocol::EchoExchange;
use crate::protocol::StreamError;
use crate::protocol::StreamRead;
use vstd::prelude::*;

verus! {

/// Transport error codes from this value on stand for a failure of the
/// cryptographic handshake: the code is this base plus the TLS alert.
pub const CRYPTO_ERROR_BASE: u64 = 0x100;

/// The TLS alert of a peer that accepts none of the offered application
/// protocols.
pub const ALERT_NO_APPLICATION_PROTOCOL: u64 = 120;

/// Why a connection ended, or why its handshake failed, as the transport
/// reports it.
#[derive(Clone, Copy, Debug, PartialEq, Eq, Structural)]
pub enum ConnectionFault {
    /// The peer implements no supported version of the transport.
    VersionMismatch,
    /// The peer violated the transport protocol; the code names the violation.
    TransportError { code: u64 },
    /// The peer's transport aborted the connection with this code.
    ConnectionClosed { code: u64 },
    /// The peer's application closed the connection with this code.
    ApplicationClosed { code: u64 },
    /// The peer lost the connection's state.
    Reset,
    /// Nothing was heard from the peer for longer than the idle timeout.
    TimedOut,
    /// This side closed the connection.
    LocallyClosed,
    /// No connection identifier was left for the connection.
    CidsExhausted,
}

/// How a connection ended.
#[derive(Clone, Copy, Debug, PartialEq, Eq, Structural)]
pub enum Termination {
    /// The peer's application closed it: the expected end, not an error.
    PeerClosed,
    /// Anything else: an error to report.
    Failed(ConnectionFault),
}

/// The kind of end that a fault stands for.
pub open spec fn termination_of(fault: ConnectionFault) -> Termination {
    match fault {
        ConnectionFault::ApplicationClosed { .. } => Termination::PeerClosed,
        _ => Termination::Failed(fault),
    }
}

impl Termination {
    /// Tells an orderly close by the peer from every failure.
    pub fn of(fault: ConnectionFault) -> (end: Termination)
        ensures
            end == termination_of(fault),
    {
        match fault {
            ConnectionFault::ApplicationClosed { .. } => Termination::PeerClosed,
            _ => Termination::Failed(fault),
        }
    }

    /// Whether this end is the expected one, which is reported to nobody.
    pub fn is_orderly(&self) -> (orderly: bool)
        ensures
            orderly == (*self == Termination::PeerClosed),
    {
        match self {
            Termination::PeerClosed => true,
            Termination::Failed(_) => false,
        }
    }
}

/// An orderly close by the peer is never taken for a failure, nor a failure
/// for an orderly close: the fault is an application close exactly when the
/// end is the orderly one, and every other fault is kept as it was reported.
pub proof fn lemma_orderly_close_is_distinct(fault: ConnectionFault)
    ensures
        termination_of(fault) == Termination::PeerClosed <==> fault is ApplicationClosed,
        !(fault is ApplicationClosed) ==> termination_of(fault) == Termination::Failed(fault),
        Termination::PeerClosed != Termination::Failed(fault),
{
}

/// What the handler of one connection hears from the transport.
#[derive(Clone, Copy, Debug, PartialEq, Eq, Structural)]
pub enum StreamEvent {
    /// The peer opened another bidirectional stream.
    Accepted,
    /// No further stream will come: the connection ended.
    Ended(ConnectionFault),
}

/// What the handler does next.
#[derive(Clone, Copy, Debug, PartialEq, Eq, Structural)]
pub enum HandlerAction {
    /// Hand the stream to a worker of its own and go on accepting.
    SpawnWorker,
    /// Leave without a report: the peer closed the connection.
    ExitQuietly,
    /// Report the fault and leave.
    ExitLogged(ConnectionFault),
    /// The connection has ended before; there is nothing to do.
    Nothing,
}

/// The lifecycle of one accepted connection.
#[derive(Clone, Copy, Debug, PartialEq, Eq, Structural)]
pub enum HandlerState {
    /// Accepting streams.
    Open,
    /// Ended, and how.
    Closed(Termination),
}

/// The state that follows `state` on `event`.
pub open spec fn handler_next(state: HandlerState, event: StreamEvent) -> HandlerState {
    match (state, event) {
        (HandlerState::Open, StreamEvent::Accepted) => HandlerState::Open,
        (HandlerState::Open, StreamEvent::Ended(fault)) => HandlerState::Closed(
            termination_of(fault),
        ),
        (HandlerState::Closed(end), _) => HandlerState::Closed(end),
    }
}

/// The action that `event` calls for in `state`.
pub open spec fn handler_action(state: HandlerState, event: StreamEvent) -> HandlerAction {
    match (state, event) {
        (HandlerState::Open, StreamEvent::Accepted) => HandlerAction::SpawnWorker,
        (HandlerState::Open, StreamEvent::Ended(fault)) => match termination_of(fault) {
            Termination::PeerClosed => HandlerAction::ExitQuietly,
            Termination::Failed(f) => HandlerAction::ExitLogged(f),
        },
        (HandlerState::Closed(_), _) => HandlerAction::Nothing,
    }
}

/// The handler of one accepted connection.
#[derive(Clone, Copy, Debug, PartialEq, Eq, Structural)]
pub struct ConnectionHandler {
    pub remote: SocketAddress,
    pub state: HandlerState,
}

impl ConnectionHandler {
    /// The handler of a connection whose handshake has just completed.
    pub fn new(remote: SocketAddress) -> (handler: ConnectionHandler)
        ensures
            handler == (ConnectionHandler { remote, state: HandlerState::Open }),
    {
        ConnectionHandler { remote, state: HandlerState::Open }
    }

    /// Whether the connection still accepts streams.
    pub fn is_open(&self) -> (open: bool)
        ensures
            open == (self.state == HandlerState::Open),
    {
        match self.state {
            HandlerState::Open => true,
            HandlerState::Closed(_) => false,
        }
    }

    /// Takes one event. A new stream gets a worker while the handler goes on;
    /// the end of the connection closes the handler for good, quietly if the
    /// peer closed it and with a report otherwise.
    pub fn on_event(&mut self, event: StreamEvent) -> (action: HandlerAction)
        ensures
            final(self).remote == old(self).remote,
            final(self).state == handler_next(old(self).state, event),
            action == handler_action(old(self).state, event),
    {
        match self.state {
            HandlerState::Closed(_) => HandlerAction::Nothing,
            HandlerState::Open => match event {
                StreamEvent::Accepted => HandlerAction::SpawnWorker,
                StreamEvent::Ended(fault) => {
                    let end = Termination::of(fault);
                    self.state = HandlerState::Closed(end);
                    match end {
                        Termination::PeerClosed => HandlerAction::ExitQuietly,
                        Termination::Failed(f) => HandlerAction::ExitLogged(f),
                    }
                },
            },
        }
    }
}

/// One entry of a connection's history: a stream that was accepted, with
/// what reading it gave, or the end of the connection.
#[derive(Clone, Debug)]
pub enum ConnectionEvent {
    Stream(StreamRead),
    Ended(ConnectionFault),
}

/// What serving a connection's history came to.
#[derive(Clone, Debug)]
pub struct ConnectionReport {
    /// The outcome of each stream that was served, in the order of arrival.
    pub replies: Vec<Result<EchoExchange, StreamError>>,
    /// How the connection ended, if the history holds its end.
    pub termination: Option<Termination>,
}

/// Whether `report` is what serving `events` under the limit `max_bytes`
/// comes to: every stream before the connection's end is answered on its own
/// account, whatever became of the streams around it, and nothing after the
/// end is served.
pub open spec fn reports(
    report: ConnectionReport,
    events: Seq<ConnectionEvent>,
    max_bytes: usize,
) -> bool {
    let served = report.replies@.len();
    &&& served <= events.len()
    &&& forall|i: int|
        0 <= i < served ==> (#[trigger] events[i]) is Stream && answers(
            report.replies@[i],
            events[i]->Stream_0,
            max_bytes,
        )
    &&& served < events.len() ==> events[served as int] is Ended && report.termination == Some(
        termination_of(events[served as int]->Ended_0),
    )
    &&& served == events.len() ==> report.termination is None
}

/// Serves the streams of one connection in the order in which they were
/// accepted, until the connection ends. A stream that fails is answered with
/// its failure and the next one is served as if nothing had happened.
pub fn handle_connection(events: Vec<ConnectionEvent>, max_bytes: usize) -> (report:
    ConnectionReport)
    ensures
        reports(report, events@, max_bytes),
{
    let ghost history = events@;
    let mut replies: Vec<Result<EchoExchange, StreamError>> = Vec::new();
    let mut termination: Option<Termination> = None;
    for event in iter: events
        invariant
            iter.seq() == history,
            termination is None ==> replies@.len() == iter.index(),
            termination is Some ==> replies@.len() < iter.index(),
            forall|i: int|
                0 <= i < replies@.len() ==> (#[trigger] history[i]) is Stream && answers(
                    replies@[i],
                    history[i]->Stream_0,
                    max_bytes,
                ),
            termination is Some ==> history[replies@.len() as int] is Ended && termination == Some(
                termination_of(history[replies@.len() as int]->Ended_0),
            ),
    {
        if termination.is_none() {
            match event {
                ConnectionEvent::Stream(read) => {
                    replies.push(serve_stream(read, max_bytes));
                },
                ConnectionEvent::Ended(fault) => {
                    termination = Some(Termination::of(fault));
                },
            }
        }
    }
    ConnectionReport { replies, termination }
}

/// What the accept loop hears from the endpoint.
#[derive(Clone, Copy, Debug, PartialEq, Eq, Structural)]
pub enum AcceptEvent {
    /// An inbound attempt completed its handshake; the peer's address.
    Connected(SocketAddress),
    /// An inbound attempt failed its handshake.
    HandshakeFailed(ConnectionFault),
    /// The endpoint will yield no further attempt.
    EndpointClosed,
}

/// What the accept loop does next.
#[derive(Clone, Copy, Debug, PartialEq, Eq, Structural)]
pub enum AcceptAction {
    /// Start a handler of its own for the connection and go on accepting.
    Serve(SocketAddress),
    /// Report the failed attempt and go on accepting.
    Skip(ConnectionFault),
    /// Leave the loop.
    Stop,
}

/// The action that `event` calls for while the endpoint is accepting.
pub open spec fn accept_action(event: AcceptEvent) -> AcceptAction {
    match event {
        AcceptEvent::Connected(remote) => AcceptAction::Serve(remote),
        AcceptEvent::HandshakeFailed(fault) => AcceptAction::Skip(fault),
        AcceptEvent::EndpointClosed => AcceptAction::Stop,
    }
}

/// A listening endpoint: the address it is bound to, and whether its accept
/// loop is still running.
#[derive(Clone, Copy, Debug, PartialEq, Eq, Structural)]
pub struct QuicServer {
    local_addr: SocketAddress,
    accepting: bool,
}

impl QuicServer {
    /// The address that the endpoint is bound to.
    pub closed spec fn spec_local_addr(&self) -> SocketAddress {
        self.local_addr
    }

    /// Whether the accept loop is still running.
    pub closed spec fn spec_is_accepting(&self) -> bool {
        self.accepting
    }

    /// The server of an endpoint that has just been bound to `addr`.
    pub fn new(addr: SocketAddress) -> (server: QuicServer)
        ensures
            server.spec_local_addr() == addr,
            server.spec_is_accepting(),
    {
        QuicServer { local_addr: addr, accepting: true }
    }

    /// The address that the endpoint is bound to.
    #[verifier::when_used_as_spec(spec_local_addr)]
    pub fn local_addr(&self) -> (addr: SocketAddress)
        ensures
            addr == self.spec_local_addr(),
    {
        self.local_addr
    }

    /// Whether the accept loop is still running.
    #[verifier::when_used_as_spec(spec_is_accepting)]
    pub fn is_accepting(&self) -> (accepting: bool)
        ensures
            accepting == self.spec_is_accepting(),
    {
        self.accepting
    }

    /// Takes one event of the endpoint. Only the end of the endpoint stops
    /// the loop: a connection gets its handler, a failed handshake is
    /// reported, and in both cases the loop goes on as before.
    pub fn accept(&mut self, event: AcceptEvent) -> (action: AcceptAction)
        ensures
            final(self).local_addr() == old(self).local_addr(),
            final(self).is_accepting() == (old(self).is_accepting() && event
                != AcceptEvent::EndpointClosed),
            action == if old(self).is_accepting() {
                accept_action(event)
            } else {
                AcceptAction::Stop
            },
    {
        if !self.accepting {
            return AcceptAction::Stop;
        }
        match event {
            AcceptEvent::Connected(remote) => AcceptAction::Serve(remote),
            AcceptEvent::HandshakeFailed(fault) => AcceptAction::Skip(fault),
            AcceptEvent::EndpointClosed => {
                self.accepting = false;
                AcceptAction::Stop
            },
        }
    }

    /// Runs the accept loop over the events of the endpoint, in order, and
    /// gives the action taken on each, up to and including the one that
    /// stops the loop. Events that follow the end of the endpoint are not
    /// looked at, and a server that has stopped before takes no action.
    pub fn run(&mut self, events: &Vec<AcceptEvent>) -> (actions: Vec<AcceptAction>)
        ensures
            final(self).local_addr() == old(self).local_addr(),
            runs(old(self).is_accepting(), events@, actions@, final(self).is_accepting()),
    {
        let mut actions: Vec<AcceptAction> = Vec::new();
        let mut i: usize = 0;
        while i < events.len() && self.accepting
            invariant
                i <= events.len(),
                self.local_addr == old(self).local_addr,
                actions@.len() == i,
                forall|j: int| 0 <= j < i ==> #[trigger] actions@[j] == accept_action(events@[j]),
                forall|j: int|
                    0 <= j < i - 1 ==> #[trigger] events@[j] != AcceptEvent::EndpointClosed,
                old(self).accepting || i == 0,
                i > 0 ==> (self.accepting == (events@[i - 1] != AcceptEvent::EndpointClosed)),
                i == 0 ==> self.accepting == old(self).accepting,
            decreases events.len() - i,
        {
            let action = self.accept(events[i]);
            actions.push(action);
            i = i + 1;
        }
        actions
    }
}

/// Whether `actions` and `after` are what the accept loop comes to on
/// `events`, started accepting or not as `before` says: each event up to the
/// first end of the endpoint gets its own action, the end stops the loop,
/// and nothing short of it does.
pub open spec fn runs(
    before: bool,
    events: Seq<AcceptEvent>,
    actions: Seq<AcceptAction>,
    after: bool,
) -> bool {
    if !before {
        actions.len() == 0 && !after
    } else {
        let taken = actions.len();
        &&& taken <= events.len()
        &&& forall|j: int| 0 <= j < taken ==> #[trigger] actions[j] == accept_action(events[j])
        &&& forall|j: int|
            0 <= j < taken - 1 ==> #[trigger] events[j] != AcceptEvent::EndpointClosed
        &&& taken < events.len() ==> taken > 0 && events[taken - 1] == AcceptEvent::EndpointClosed
        &&& taken > 0 ==> after == (events[taken - 1] != AcceptEvent::EndpointClosed)
        &&& taken == 0 ==> after
    }
}

} // verus!
