//! One exchange on one bidirectional stream, step by step.
//!
//! The side that asks opens the stream, writes the whole payload, finishes
//! its send half and reads the answer to its end. The side that answers
//! reads the payload to its end, writes the reply and finishes its send
//! half. Each side is a small machine: whoever drives the transport reports
//! what happened, and the machine says what to do next.

use crate::client::SessionError;
use crate::client::session_error;
use crate::client::to_session_error;
use crate::protocol::answers;
use crate::protocol::classify_fault;
use crate::protocol::fault_error;
use crate::protocol::read_text;
use crate::protocol::received_text;
use crate::protocol::serve_stream;
use crate::protocol::EchoExchange;
use crate::protocol::StreamError;
use crate::protocol::StreamFault;
use crate::protocol::StreamRead;
use crate::server::termination_of;
use crate::server::ConnectionFault;
use crate::server::Termination;
use vstd::prelude::*;

verus! {

/// The state of one half of a stream.
#[derive(Clone, Copy, Debug, PartialEq, Eq, Structural)]
pub enum HalfState {
    /// Data may still flow.
    Open,
    /// The end of the data was signalled.
    Finished,
    /// The half was abandoned.
    Reset,
}

/// What the transport reports of the step that was asked for last.
#[derive(Clone, Debug)]
pub enum StepReport {
    /// The stream was opened.
    Opened,
    /// The whole payload was written.
    Written,
    /// The send half was finished.
    SendFinished,
    /// The receive half was read to its end, with this result.
    Read(StreamRead),
    /// The step failed, for this reason.
    Broken(StreamFault),
}

/// Where the asking side stands.
#[derive(Clone, Copy, Debug, PartialEq, Eq, Structural)]
pub enum ClientPhase {
    /// Waiting for the stream to open.
    Opening,
    /// Waiting for the payload to be written.
    Writing,
    /// Waiting for the send half to finish.
    Finishing,
    /// Waiting for the answer.
    Reading,
    /// The answer was delivered.
    Delivered,
    /// The exchange failed.
    Failed,
}

/// What the asking side does next.
#[derive(Clone, Debug, PartialEq, Eq)]
pub enum ClientAction {
    /// Write the whole payload of the exchange.
    Write,
    /// Finish the send half.
    FinishSend,
    /// Read the receive half to its end, giving up beyond this many bytes.
    ReadToEnd(usize),
    /// Hand the answer to the caller: the exchange is complete.
    Deliver(String),
    /// Hand the failure to the caller: the exchange is over.
    Fail(SessionError),
    /// The exchange was over before; there is nothing to do.
    Nothing,
}

/// The phase that follows `phase` on `event`, with `limit` bytes allowed
/// for the answer. Each phase waits for one event; any other event, and a
/// broken step, fails the exchange, and an exchange that is over stays so.
pub open spec fn client_next(phase: ClientPhase, event: StepReport, limit: usize) -> ClientPhase {
    match (phase, event) {
        (ClientPhase::Delivered, _) => ClientPhase::Delivered,
        (ClientPhase::Failed, _) => ClientPhase::Failed,
        (ClientPhase::Opening, StepReport::Opened) => ClientPhase::Writing,
        (ClientPhase::Writing, StepReport::Written) => ClientPhase::Finishing,
        (ClientPhase::Finishing, StepReport::SendFinished) => ClientPhase::Reading,
        (ClientPhase::Reading, StepReport::Read(read)) => if received_text(read, limit) is Ok {
            ClientPhase::Delivered
        } else {
            ClientPhase::Failed
        },
        _ => ClientPhase::Failed,
    }
}

/// Whether `action` is what the asking side owes on `event` in `phase`.
pub open spec fn client_owes(
    phase: ClientPhase,
    event: StepReport,
    limit: usize,
    action: ClientAction,
) -> bool {
    match (phase, event) {
        (ClientPhase::Delivered, _) => action is Nothing,
        (ClientPhase::Failed, _) => action is Nothing,
        (ClientPhase::Opening, StepReport::Opened) => action is Write,
        (ClientPhase::Writing, StepReport::Written) => action is FinishSend,
        (ClientPhase::Finishing, StepReport::SendFinished) => action == ClientAction::ReadToEnd(
            limit,
        ),
        (ClientPhase::Reading, StepReport::Read(read)) => match received_text(read, limit) {
            Ok(text) => action is Deliver && action->Deliver_0@ == text,
            Err(e) => action == ClientAction::Fail(session_error(e)),
        },
        (_, StepReport::Broken(fault)) => action == ClientAction::Fail(
            session_error(fault_error(fault)),
        ),
        _ => action == ClientAction::Fail(SessionError::Stream(StreamError::OutOfOrder)),
    }
}

/// The send half of the asking side's stream, once it is open.
pub open spec fn client_send_half(phase: ClientPhase) -> Option<HalfState> {
    match phase {
        ClientPhase::Opening => None,
        ClientPhase::Writing => Some(HalfState::Open),
        ClientPhase::Finishing => Some(HalfState::Open),
        ClientPhase::Reading => Some(HalfState::Finished),
        ClientPhase::Delivered => Some(HalfState::Finished),
        ClientPhase::Failed => Some(HalfState::Reset),
    }
}

/// The receive half of the asking side's stream, once it is open.
pub open spec fn client_recv_half(phase: ClientPhase) -> Option<HalfState> {
    match phase {
        ClientPhase::Opening => None,
        ClientPhase::Writing => Some(HalfState::Open),
        ClientPhase::Finishing => Some(HalfState::Open),
        ClientPhase::Reading => Some(HalfState::Open),
        ClientPhase::Delivered => Some(HalfState::Finished),
        ClientPhase::Failed => Some(HalfState::Reset),
    }
}

/// One outbound request: the payload to send and where the exchange stands.
#[derive(Debug)]
pub struct ClientExchange {
    phase: ClientPhase,
    payload: Vec<u8>,
    limit: usize,
}

impl ClientExchange {
    /// Where the exchange stands.
    pub closed spec fn spec_phase(&self) -> ClientPhase {
        self.phase
    }

    /// The payload of the request.
    pub closed spec fn spec_payload(&self) -> Seq<u8> {
        self.payload@
    }

    /// The largest answer, in bytes, that is read.
    pub closed spec fn spec_limit(&self) -> usize {
        self.limit
    }

    /// An exchange that is about to open its stream.
    pub fn new(payload: Vec<u8>, limit: usize) -> (exchange: ClientExchange)
        ensures
            exchange.spec_phase() == ClientPhase::Opening,
            exchange.spec_payload() == payload@,
            exchange.spec_limit() == limit,
    {
        ClientExchange { phase: ClientPhase::Opening, payload, limit }
    }

    /// Where the exchange stands.
    #[verifier::when_used_as_spec(spec_phase)]
    pub fn phase(&self) -> (phase: ClientPhase)
        ensures
            phase == self.spec_phase(),
    {
        self.phase
    }

    /// The payload of the request.
    pub fn payload(&self) -> (payload: &Vec<u8>)
        ensures
            payload@ == self.spec_payload(),
    {
        &self.payload
    }

    /// Takes what the transport reports and says what to do next.
    pub fn on_event(&mut self, event: StepReport) -> (action: ClientAction)
        ensures
            final(self).spec_phase() == client_next(old(self).spec_phase(), event, old(self).spec_limit()),
            client_owes(old(self).spec_phase(), event, old(self).spec_limit(), action),
            final(self).spec_payload() == old(self).spec_payload(),
            final(self).spec_limit() == old(self).spec_limit(),
    {
        match self.phase {
            ClientPhase::Delivered => ClientAction::Nothing,
            ClientPhase::Failed => ClientAction::Nothing,
            ClientPhase::Opening => match event {
                StepReport::Opened => {
                    self.phase = ClientPhase::Writing;
                    ClientAction::Write
                },
                other => self.fail(other),
            },
            ClientPhase::Writing => match event {
                StepReport::Written => {
                    self.phase = ClientPhase::Finishing;
                    ClientAction::FinishSend
                },
                other => self.fail(other),
            },
            ClientPhase::Finishing => match event {
                StepReport::SendFinished => {
                    self.phase = ClientPhase::Reading;
                    ClientAction::ReadToEnd(self.limit)
                },
                other => self.fail(other),
            },
            ClientPhase::Reading => match event {
                StepReport::Read(read) => match read_text(read, self.limit) {
                    Ok(text) => {
                        self.phase = ClientPhase::Delivered;
                        ClientAction::Deliver(text)
                    },
                    Err(e) => {
                        self.phase = ClientPhase::Failed;
                        ClientAction::Fail(to_session_error(e))
                    },
                },
                other => self.fail(other),
            },
        }
    }

    /// Fails the exchange on a report that it was not waiting for.
    fn fail(&mut self, report: StepReport) -> (action: ClientAction)
        ensures
            final(self).phase == ClientPhase::Failed,
            final(self).payload == old(self).payload,
            final(self).limit == old(self).limit,
            action == ClientAction::Fail(
                match report {
                    StepReport::Broken(fault) => session_error(fault_error(fault)),
                    _ => SessionError::Stream(StreamError::OutOfOrder),
                },
            ),
    {
        self.phase = ClientPhase::Failed;
        match report {
            StepReport::Broken(fault) => ClientAction::Fail(to_session_error(classify_fault(fault))),
            _ => ClientAction::Fail(SessionError::Stream(StreamError::OutOfOrder)),
        }
    }
}

/// Where the answering side stands.
#[derive(Clone, Copy, Debug, PartialEq, Eq, Structural)]
pub enum WorkerPhase {
    /// Waiting for the payload.
    Reading,
    /// Waiting for the reply to be written.
    Writing,
    /// Waiting for the send half to finish.
    Finishing,
    /// The reply was sent whole.
    Completed,
    /// The exchange failed.
    Failed,
}

/// What the answering side does next.
#[derive(Clone, Debug)]
pub enum WorkerAction {
    /// Note the text that was received, then write the whole reply.
    Reply(EchoExchange),
    /// Finish the send half.
    FinishSend,
    /// The exchange is complete.
    Complete,
    /// Report the failure: the exchange is over, its connection is not.
    Fail(StreamError),
    /// The exchange was over before; there is nothing to do.
    Nothing,
}

/// The phase that follows `phase` on `event`, with `limit` bytes allowed
/// for the payload.
pub open spec fn worker_next(phase: WorkerPhase, event: StepReport, limit: usize) -> WorkerPhase {
    match (phase, event) {
        (WorkerPhase::Completed, _) => WorkerPhase::Completed,
        (WorkerPhase::Failed, _) => WorkerPhase::Failed,
        (WorkerPhase::Reading, StepReport::Read(read)) => if received_text(read, limit) is Ok {
            WorkerPhase::Writing
        } else {
            WorkerPhase::Failed
        },
        (WorkerPhase::Writing, StepReport::Written) => WorkerPhase::Finishing,
        (WorkerPhase::Finishing, StepReport::SendFinished) => WorkerPhase::Completed,
        _ => WorkerPhase::Failed,
    }
}

/// Whether `action` is what the answering side owes on `event` in `phase`.
pub open spec fn worker_owes(
    phase: WorkerPhase,
    event: StepReport,
    limit: usize,
    action: WorkerAction,
) -> bool {
    match (phase, event) {
        (WorkerPhase::Completed, _) => action is Nothing,
        (WorkerPhase::Failed, _) => action is Nothing,
        (WorkerPhase::Reading, StepReport::Read(read)) => match received_text(read, limit) {
            Ok(_) => action is Reply && answers(
                Ok::<EchoExchange, StreamError>(action->Reply_0),
                read,
                limit,
            ),
            Err(e) => action is Fail && action->Fail_0 == e,
        },
        (WorkerPhase::Writing, StepReport::Written) => action is FinishSend,
        (WorkerPhase::Finishing, StepReport::SendFinished) => action is Complete,
        (_, StepReport::Broken(fault)) => action is Fail && action->Fail_0 == fault_error(fault),
        _ => action is Fail && action->Fail_0 == StreamError::OutOfOrder,
    }
}

/// The worker of one accepted stream.
#[derive(Clone, Copy, Debug, PartialEq, Eq, Structural)]
pub struct EchoWorker {
    pub phase: WorkerPhase,
    /// The largest payload, in bytes, that is read.
    pub limit: usize,
}

impl EchoWorker {
    /// A worker that is about to read its stream.
    pub fn new(limit: usize) -> (worker: EchoWorker)
        ensures
            worker == (EchoWorker { phase: WorkerPhase::Reading, limit }),
    {
        EchoWorker { phase: WorkerPhase::Reading, limit }
    }

    /// Takes what the transport reports and says what to do next.
    pub fn on_event(&mut self, event: StepReport) -> (action: WorkerAction)
        ensures
            final(self).phase == worker_next(old(self).phase, event, old(self).limit),
            final(self).limit == old(self).limit,
            worker_owes(old(self).phase, event, old(self).limit, action),
    {
        match self.phase {
            WorkerPhase::Completed => WorkerAction::Nothing,
            WorkerPhase::Failed => WorkerAction::Nothing,
            WorkerPhase::Reading => match event {
                StepReport::Read(read) => match serve_stream(read, self.limit) {
                    Ok(exchange) => {
                        self.phase = WorkerPhase::Writing;
                        WorkerAction::Reply(exchange)
                    },
                    Err(e) => {
                        self.phase = WorkerPhase::Failed;
                        WorkerAction::Fail(e)
                    },
                },
                other => self.fail(other),
            },
            WorkerPhase::Writing => match event {
                StepReport::Written => {
                    self.phase = WorkerPhase::Finishing;
                    WorkerAction::FinishSend
                },
                other => self.fail(other),
            },
            WorkerPhase::Finishing => match event {
                StepReport::SendFinished => {
                    self.phase = WorkerPhase::Completed;
                    WorkerAction::Complete
                },
                other => self.fail(other),
            },
        }
    }

    /// Fails the exchange on a report that it was not waiting for.
    fn fail(&mut self, report: StepReport) -> (action: WorkerAction)
        ensures
            final(self).phase == WorkerPhase::Failed,
            final(self).limit == old(self).limit,
            action is Fail,
            action->Fail_0 == match report {
                StepReport::Broken(fault) => fault_error(fault),
                _ => StreamError::OutOfOrder,
            },
    {
        self.phase = WorkerPhase::Failed;
        match report {
            StepReport::Broken(fault) => WorkerAction::Fail(classify_fault(fault)),
            _ => WorkerAction::Fail(StreamError::OutOfOrder),
        }
    }
}

/// An exchange is delivered only at the end of the one order of steps: the
/// stream was opened, then the payload written, then the send half
/// finished, then a well-formed answer within the limit read. Each phase is
/// entered from the phase before it and on its own event only.
pub proof fn lemma_client_steps_in_order(phase: ClientPhase, event: StepReport, limit: usize)
    ensures
        client_next(phase, event, limit) == ClientPhase::Writing ==> phase == ClientPhase::Opening
            && event is Opened,
        client_next(phase, event, limit) == ClientPhase::Finishing ==> phase
            == ClientPhase::Writing && event is Written,
        client_next(phase, event, limit) == ClientPhase::Reading ==> phase
            == ClientPhase::Finishing && event is SendFinished,
        client_next(phase, event, limit) == ClientPhase::Delivered ==> phase
            == ClientPhase::Delivered || (phase == ClientPhase::Reading && event is Read
            && received_text(event->Read_0, limit) is Ok),
        client_next(phase, event, limit) != ClientPhase::Opening,
{
}

/// A stream is complete only when both of its halves are finished, and on
/// the asking side that is so exactly when the answer was delivered: the
/// send half is finished before the answer is awaited, and never while the
/// payload is still being written.
pub proof fn lemma_stream_completes_on_delivery(phase: ClientPhase)
    ensures
        (client_send_half(phase) == Some(HalfState::Finished) && client_recv_half(phase) == Some(
            HalfState::Finished,
        )) <==> phase == ClientPhase::Delivered,
        client_recv_half(phase) == Some(HalfState::Finished) ==> client_send_half(phase) == Some(
            HalfState::Finished,
        ),
        phase == ClientPhase::Reading ==> client_send_half(phase) == Some(HalfState::Finished),
{
}

/// A close by the peer's application is seen as what it is. Whatever step
/// of an exchange is under way when the connection ends, each side is told
/// how it ended: in good order exactly when the peer's application closed
/// it, and otherwise by the fault that the transport reported, so that the
/// one is never taken for the other.
pub proof fn lemma_exchange_sees_orderly_close(
    client: ClientPhase,
    worker: WorkerPhase,
    cause: ConnectionFault,
    limit: usize,
    asked: ClientAction,
    answered: WorkerAction,
)
    requires
        client != ClientPhase::Delivered && client != ClientPhase::Failed,
        worker != WorkerPhase::Completed && worker != WorkerPhase::Failed,
        client_owes(client, StepReport::Broken(StreamFault::ConnectionLost(cause)), limit, asked),
        worker_owes(worker, StepReport::Broken(StreamFault::ConnectionLost(cause)), limit, answered),
    ensures
        asked == ClientAction::Fail(SessionError::ConnectionEnded(termination_of(cause))),
        answered is Fail && answered->Fail_0 == StreamError::ConnectionEnded(termination_of(cause)),
        termination_of(cause) == Termination::PeerClosed <==> cause is ApplicationClosed,
{
}

/// The same holds of a read that the end of the connection cut short.
pub proof fn lemma_read_sees_orderly_close(
    cause: ConnectionFault,
    limit: usize,
    asked: ClientAction,
    answered: WorkerAction,
)
    requires
        client_owes(
            ClientPhase::Reading,
            StepReport::Read(StreamRead::Failed(StreamFault::ConnectionLost(cause))),
            limit,
            asked,
        ),
        worker_owes(
            WorkerPhase::Reading,
            StepReport::Read(StreamRead::Failed(StreamFault::ConnectionLost(cause))),
            limit,
            answered,
        ),
    ensures
        asked == ClientAction::Fail(SessionError::ConnectionEnded(termination_of(cause))),
        answered is Fail && answered->Fail_0 == StreamError::ConnectionEnded(termination_of(cause)),
{
}

} // verus!
