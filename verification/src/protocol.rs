//! The echo protocol: one message is the whole payload of one bidirectional
//! stream, UTF-8 encoded and delimited by the end of the stream; the reply is
//! a fixed marker followed by the text that was received.

use crate::server::termination_of;
use crate::server::ConnectionFault;
use crate::server::Termination;
use vstd::prelude::*;
use vstd::string::StringExecFns;
use vstd::string::StrSliceExecFns;
use vstd::utf8::*;

verus! {

/// The largest payload, in bytes, that either side reads from one stream
/// unless the caller chooses another limit.
pub const DEFAULT_MAX_MESSAGE_BYTES: usize = 65536;

/// The error code sent with a connection-level close.
pub const CLOSE_CODE: u32 = 0;

/// The marker that starts every reply: `Echo: `.
pub open spec fn echo_prefix() -> Seq<char> {
    seq!['E', 'c', 'h', 'o', ':', ' ']
}

/// The reply to the text `message`.
pub open spec fn echo_text(message: Seq<char>) -> Seq<char> {
    echo_prefix() + message
}

/// The application-protocol identifier of the handshake, `quic-echo` in ASCII.
pub open spec fn protocol_id() -> Seq<u8> {
    seq![0x71u8, 0x75u8, 0x69u8, 0x63u8, 0x2du8, 0x65u8, 0x63u8, 0x68u8, 0x6fu8]
}

/// The reason sent with a connection-level close, `done` in ASCII.
pub open spec fn close_reason_bytes() -> Seq<u8> {
    seq![0x64u8, 0x6fu8, 0x6eu8, 0x65u8]
}

/// Why the transport could not carry out a step on a stream.
#[derive(Clone, Copy, Debug, PartialEq, Eq, Structural)]
pub enum StreamFault {
    /// The connection ended, for this reason.
    ConnectionLost(ConnectionFault),
    /// The peer abandoned sending on the stream, with this code.
    Reset { code: u64 },
    /// The peer asked for no more data on the stream, with this code.
    Stopped { code: u64 },
    /// The stream was finished, stopped or reset before.
    ClosedStream,
    /// An ordered read was tried after an unordered one.
    IllegalOrderedRead,
    /// The stream was opened early and the server did not accept it.
    ZeroRttRejected,
}

/// Why one stream's exchange failed. Such a failure ends that stream only,
/// except where it says that the connection itself ended.
#[derive(Clone, Copy, Debug, PartialEq, Eq, Structural)]
pub enum StreamError {
    /// The payload is longer than the limit.
    TooLarge,
    /// The payload is not valid UTF-8.
    InvalidEncoding,
    /// The connection ended while the exchange was under way, and how: in
    /// good order, if the peer's application closed it, else by a failure.
    ConnectionEnded(Termination),
    /// The transport failed on this stream while the connection went on.
    Transport(StreamFault),
    /// A step was reported that the exchange was not waiting for.
    OutOfOrder,
}

/// What reading one stream's receive half to its end gave.
#[derive(Clone, Debug)]
pub enum StreamRead {
    /// The whole payload, up to the end-of-data signal.
    Complete(Vec<u8>),
    /// The transport stopped reading because the payload passed the limit.
    TooLong,
    /// The read failed before the end of the payload.
    Failed(StreamFault),
}

/// The error that a fault of the transport is reported as. The end of the
/// connection is told from a failure of the one stream, and an end in good
/// order from every other end.
pub open spec fn fault_error(fault: StreamFault) -> StreamError {
    match fault {
        StreamFault::ConnectionLost(cause) => StreamError::ConnectionEnded(termination_of(cause)),
        _ => StreamError::Transport(fault),
    }
}

/// Names the error of a fault of the transport.
pub fn classify_fault(fault: StreamFault) -> (error: StreamError)
    ensures
        error == fault_error(fault),
{
    match fault {
        StreamFault::ConnectionLost(cause) => StreamError::ConnectionEnded(Termination::of(cause)),
        _ => StreamError::Transport(fault),
    }
}

/// The text that a complete payload carries under the limit `max_bytes`, or
/// the reason why it carries none.
pub open spec fn payload_text(payload: Seq<u8>, max_bytes: usize) -> Result<Seq<char>, StreamError> {
    if payload.len() > max_bytes {
        Err(StreamError::TooLarge)
    } else if !valid_utf8(payload) {
        Err(StreamError::InvalidEncoding)
    } else {
        Ok(decode_utf8(payload))
    }
}

/// The bytes written in answer to a complete payload, or the reason why none
/// are written.
pub open spec fn payload_reply(payload: Seq<u8>, max_bytes: usize) -> Result<Seq<u8>, StreamError> {
    match payload_text(payload, max_bytes) {
        Ok(text) => Ok(encode_utf8(echo_text(text))),
        Err(e) => Err(e),
    }
}

/// The text that a read delivers under the limit `max_bytes`, or the reason
/// why it delivers none.
pub open spec fn received_text(read: StreamRead, max_bytes: usize) -> Result<Seq<char>, StreamError> {
    match read {
        StreamRead::Failed(fault) => Err(fault_error(fault)),
        StreamRead::TooLong => Err(StreamError::TooLarge),
        StreamRead::Complete(bytes) => payload_text(bytes@, max_bytes),
    }
}

/// One completed exchange on the answering side.
#[derive(Clone, Debug)]
pub struct EchoExchange {
    /// The text that was received.
    pub message: String,
    /// The payload to write back before finishing the send half.
    pub response: Vec<u8>,
}

/// Whether `outcome` is what the echo worker owes for `read` under the limit
/// `max_bytes`: the decoded text with its reply, or the failure of the read.
pub open spec fn answers(
    outcome: Result<EchoExchange, StreamError>,
    read: StreamRead,
    max_bytes: usize,
) -> bool {
    match received_text(read, max_bytes) {
        Ok(text) => outcome is Ok && outcome->Ok_0.message@ == text && outcome->Ok_0.response@
            == encode_utf8(echo_text(text)),
        Err(e) => outcome == Err::<EchoExchange, StreamError>(e),
    }
}

/// `String::from_utf8` of std: the bytes become a string exactly when they
/// are well-formed UTF-8, and the string then holds the characters that they
/// encode.
#[verifier::external_body]
fn text_from_utf8(bytes: Vec<u8>) -> (r: Option<String>)
    ensures
        r.is_some() == valid_utf8(bytes@),
        r matches Some(s) ==> s@ == decode_utf8(bytes@),
{
    match String::from_utf8(bytes) {
        Ok(s) => Some(s),
        Err(_) => None,
    }
}

/// The identifier that both peers advertise during the handshake.
pub fn application_protocol() -> (id: Vec<u8>)
    ensures
        id@ == protocol_id(),
{
    let id = vec![0x71u8, 0x75u8, 0x69u8, 0x63u8, 0x2du8, 0x65u8, 0x63u8, 0x68u8, 0x6fu8];
    assert(id@ =~= protocol_id());
    id
}

/// The reason that accompanies `CLOSE_CODE` when a session is closed.
pub fn close_reason() -> (reason: Vec<u8>)
    ensures
        reason@ == close_reason_bytes(),
{
    let reason = vec![0x64u8, 0x6fu8, 0x6eu8, 0x65u8];
    assert(reason@ =~= close_reason_bytes());
    reason
}

/// The payload of the stream that carries `message`.
pub fn request_payload(message: &str) -> (payload: Vec<u8>)
    ensures
        payload@ == encode_utf8(message@),
{
    message.as_bytes_vec()
}

/// The reply to `message`: the marker, then the message itself.
pub fn echo_response(message: &str) -> (response: String)
    ensures
        response@ == echo_text(message@),
{
    let mut response = String::from_str("Echo: ");
    proof {
        reveal_strlit("Echo: ");
        assert("Echo: "@ =~= echo_prefix());
    }
    response.append(message);
    response
}

/// Decodes what was read from a stream, refusing a payload over the limit.
pub fn read_text(read: StreamRead, max_bytes: usize) -> (r: Result<String, StreamError>)
    ensures
        match received_text(read, max_bytes) {
            Ok(text) => r is Ok && r->Ok_0@ == text,
            Err(e) => r == Err::<String, StreamError>(e),
        },
{
    match read {
        StreamRead::Failed(fault) => Err(classify_fault(fault)),
        StreamRead::TooLong => Err(StreamError::TooLarge),
        StreamRead::Complete(bytes) => {
            if bytes.len() > max_bytes {
                Err(StreamError::TooLarge)
            } else {
                match text_from_utf8(bytes) {
                    Some(text) => Ok(text),
                    None => Err(StreamError::InvalidEncoding),
                }
            }
        },
    }
}

/// The work of one echo worker: decode the payload of its stream and build
/// the reply. An oversized or malformed payload fails this exchange alone.
pub fn serve_stream(read: StreamRead, max_bytes: usize) -> (r: Result<EchoExchange, StreamError>)
    ensures
        answers(r, read, max_bytes),
{
    match read_text(read, max_bytes) {
        Ok(message) => {
            let reply = echo_response(message.as_str());
            let response = reply.as_str().as_bytes_vec();
            Ok(EchoExchange { message, response })
        },
        Err(e) => Err(e),
    }
}

/// Encoding distributes over concatenation.
pub proof fn lemma_encode_utf8_concat(a: Seq<char>, b: Seq<char>)
    ensures
        encode_utf8(a + b) == encode_utf8(a) + encode_utf8(b),
    decreases a.len(),
{
    if a.len() == 0 {
        assert(a + b =~= b);
        assert(encode_utf8(a) =~= Seq::<u8>::empty());
        assert(encode_utf8(a) + encode_utf8(b) =~= encode_utf8(b));
    } else {
        assert((a + b).drop_first() =~= a.drop_first() + b);
        assert((a + b)[0] == a[0]);
        lemma_encode_utf8_concat(a.drop_first(), b);
        assert(encode_utf8(a + b) =~= encode_utf8(a) + encode_utf8(b));
    }
}

/// On the wire a reply is the six bytes of the marker followed by the bytes
/// of the message, unchanged.
pub proof fn lemma_reply_wire_format(message: Seq<char>)
    ensures
        encode_utf8(echo_text(message)) == encode_utf8(echo_prefix()) + encode_utf8(message),
        encode_utf8(echo_prefix()) == seq![0x45u8, 0x63u8, 0x68u8, 0x6fu8, 0x3au8, 0x20u8],
        encode_utf8(echo_text(message)).len() == encode_utf8(message).len() + 6,
{
    lemma_encode_utf8_concat(echo_prefix(), message);
    let prefix = echo_prefix();
    assert(is_ascii_chars(prefix));
    is_ascii_chars_encode_utf8(prefix);
    assert(encode_utf8(prefix) =~= seq![0x45u8, 0x63u8, 0x68u8, 0x6fu8, 0x3au8, 0x20u8]);
}

/// Every well-formed message within the limit is answered with exactly the
/// marker followed by the message. The sender reads the answer under the same
/// limit, so where the six bytes of the marker still fit, it gets exactly
/// that text back.
pub proof fn echo_round_trip(message: Seq<char>, max_bytes: usize)
    requires
        encode_utf8(message).len() <= max_bytes,
    ensures
        payload_text(encode_utf8(message), max_bytes) == Ok::<Seq<char>, StreamError>(message),
        payload_reply(encode_utf8(message), max_bytes) == Ok::<Seq<u8>, StreamError>(
            encode_utf8(echo_text(message)),
        ),
        encode_utf8(message).len() + 6 <= max_bytes ==> payload_text(
            encode_utf8(echo_text(message)),
            max_bytes,
        ) == Ok::<Seq<char>, StreamError>(echo_text(message)),
        encode_utf8(message).len() + 6 > max_bytes ==> payload_text(
            encode_utf8(echo_text(message)),
            max_bytes,
        ) == Err::<Seq<char>, StreamError>(StreamError::TooLarge),
{
    encode_utf8_valid_utf8(message);
    encode_utf8_decode_utf8(message);
    encode_utf8_valid_utf8(echo_text(message));
    encode_utf8_decode_utf8(echo_text(message));
    lemma_reply_wire_format(message);
}

} // verus!
