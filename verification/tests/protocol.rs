use easy_quic::protocol::application_protocol;
use easy_quic::protocol::close_reason;
use easy_quic::protocol::echo_response;
use easy_quic::protocol::read_text;
use easy_quic::protocol::request_payload;
use easy_quic::protocol::serve_stream;
use easy_quic::protocol::classify_fault;
use easy_quic::protocol::StreamError;
use easy_quic::protocol::StreamFault;
use easy_quic::protocol::StreamRead;
use easy_quic::protocol::CLOSE_CODE;
use easy_quic::protocol::DEFAULT_MAX_MESSAGE_BYTES;
use easy_quic::server::ConnectionFault;
use easy_quic::server::Termination;

#[test]
fn protocol_constants() {
    assert_eq!(application_protocol(), b"quic-echo".to_vec());
    assert_eq!(close_reason(), b"done".to_vec());
    assert_eq!(CLOSE_CODE, 0);
    assert_eq!(DEFAULT_MAX_MESSAGE_BYTES, 64 * 1024);
}

#[test]
fn echo_response_prepends_the_marker() {
    assert_eq!(echo_response("hello"), "Echo: hello");
    assert_eq!(echo_response(""), "Echo: ");
    assert_eq!(echo_response("Echo: x"), "Echo: Echo: x");
    assert_eq!(echo_response("grüße, 世界"), "Echo: grüße, 世界");
}

#[test]
fn request_payload_is_the_utf8_of_the_message() {
    assert_eq!(request_payload("hello"), b"hello".to_vec());
    assert_eq!(request_payload(""), Vec::<u8>::new());
    assert_eq!(request_payload("é"), vec![0xc3, 0xa9]);
}

#[test]
fn serve_stream_answers_a_well_formed_payload() {
    let exchange = serve_stream(StreamRead::Complete(b"hello".to_vec()), 65536).unwrap();
    assert_eq!(exchange.message, "hello");
    assert_eq!(exchange.response, b"Echo: hello".to_vec());
}

#[test]
fn serve_stream_answers_an_empty_payload() {
    let exchange = serve_stream(StreamRead::Complete(Vec::new()), 0).unwrap();
    assert_eq!(exchange.message, "");
    assert_eq!(exchange.response, b"Echo: ".to_vec());
}

#[test]
fn serve_stream_keeps_multibyte_text() {
    let text = "grüße, 世界 🙂";
    let exchange = serve_stream(StreamRead::Complete(text.as_bytes().to_vec()), 65536).unwrap();
    assert_eq!(exchange.message, text);
    assert_eq!(exchange.response, format!("Echo: {}", text).into_bytes());
}

#[test]
fn serve_stream_reply_is_six_bytes_longer() {
    let payload = "some text".as_bytes().to_vec();
    let n = payload.len();
    let exchange = serve_stream(StreamRead::Complete(payload), 65536).unwrap();
    assert_eq!(exchange.response.len(), n + 6);
    assert_eq!(&exchange.response[..6], &[0x45, 0x63, 0x68, 0x6f, 0x3a, 0x20]);
    assert_eq!(&exchange.response[6..], "some text".as_bytes());
}

#[test]
fn serve_stream_limit_is_inclusive() {
    let at_limit = serve_stream(StreamRead::Complete(vec![b'a'; 255]), 255).unwrap();
    assert_eq!(at_limit.message.len(), 255);
    let over = serve_stream(StreamRead::Complete(vec![b'a'; 256]), 255);
    assert_eq!(over.err(), Some(StreamError::TooLarge));
}

#[test]
fn serve_stream_refuses_what_the_transport_cut_off() {
    assert_eq!(serve_stream(StreamRead::TooLong, 65536).err(), Some(StreamError::TooLarge));
}

#[test]
fn serve_stream_refuses_malformed_text() {
    let r = serve_stream(StreamRead::Complete(vec![0x68, 0x69, 0xff]), 65536);
    assert_eq!(r.err(), Some(StreamError::InvalidEncoding));
    let truncated = serve_stream(StreamRead::Complete(vec![0xe4, 0xb8]), 65536);
    assert_eq!(truncated.err(), Some(StreamError::InvalidEncoding));
    let surrogate = serve_stream(StreamRead::Complete(vec![0xed, 0xa0, 0x80]), 65536);
    assert_eq!(surrogate.err(), Some(StreamError::InvalidEncoding));
    let overlong = serve_stream(StreamRead::Complete(vec![0xc0, 0x80]), 65536);
    assert_eq!(overlong.err(), Some(StreamError::InvalidEncoding));
}

#[test]
fn serve_stream_size_is_checked_before_encoding() {
    let r = serve_stream(StreamRead::Complete(vec![0xff; 10]), 9);
    assert_eq!(r.err(), Some(StreamError::TooLarge));
}

#[test]
fn serve_stream_reports_a_failed_read() {
    let reset = StreamFault::Reset { code: 3 };
    assert_eq!(serve_stream(StreamRead::Failed(reset), 65536).err(), Some(StreamError::Transport(reset)));
    let lost = StreamFault::ConnectionLost(ConnectionFault::TimedOut);
    assert_eq!(
        serve_stream(StreamRead::Failed(lost), 65536).err(),
        Some(StreamError::ConnectionEnded(Termination::Failed(ConnectionFault::TimedOut)))
    );
}

#[test]
fn a_fault_says_whether_the_connection_ended_and_how() {
    let closed = StreamFault::ConnectionLost(ConnectionFault::ApplicationClosed { code: 0 });
    assert_eq!(classify_fault(closed), StreamError::ConnectionEnded(Termination::PeerClosed));
    for cause in [
        ConnectionFault::VersionMismatch,
        ConnectionFault::TransportError { code: 10 },
        ConnectionFault::ConnectionClosed { code: 0 },
        ConnectionFault::Reset,
        ConnectionFault::TimedOut,
        ConnectionFault::LocallyClosed,
        ConnectionFault::CidsExhausted,
    ] {
        let error = classify_fault(StreamFault::ConnectionLost(cause));
        assert_eq!(error, StreamError::ConnectionEnded(Termination::Failed(cause)));
        assert_ne!(error, StreamError::ConnectionEnded(Termination::PeerClosed));
    }
    for fault in [
        StreamFault::Reset { code: 1 },
        StreamFault::Stopped { code: 2 },
        StreamFault::ClosedStream,
        StreamFault::IllegalOrderedRead,
        StreamFault::ZeroRttRejected,
    ] {
        assert_eq!(classify_fault(fault), StreamError::Transport(fault));
    }
}

#[test]
fn read_text_decodes_or_says_why_not() {
    assert_eq!(read_text(StreamRead::Complete(b"Echo: hi".to_vec()), 8), Ok("Echo: hi".to_string()));
    assert_eq!(read_text(StreamRead::Complete(b"Echo: hi".to_vec()), 7), Err(StreamError::TooLarge));
    assert_eq!(read_text(StreamRead::Complete(vec![0x80]), 7), Err(StreamError::InvalidEncoding));
    assert_eq!(read_text(StreamRead::TooLong, 7), Err(StreamError::TooLarge));
    assert_eq!(
        read_text(StreamRead::Failed(StreamFault::ClosedStream), 7),
        Err(StreamError::Transport(StreamFault::ClosedStream))
    );
}

#[test]
fn every_short_ascii_message_round_trips() {
    for len in 0..40usize {
        let message: String = (0..len).map(|i| (b'a' + (i % 26) as u8) as char).collect();
        let exchange = serve_stream(StreamRead::Complete(request_payload(&message)), 64).unwrap();
        let back = read_text(StreamRead::Complete(exchange.response), 64).unwrap();
        assert_eq!(back, format!("Echo: {}", message));
    }
}

#[test]
fn a_reply_over_the_readers_limit_is_refused() {
    let message = "a".repeat(60);
    let exchange = serve_stream(StreamRead::Complete(request_payload(&message)), 64).unwrap();
    assert_eq!(exchange.response.len(), 66);
    assert_eq!(read_text(StreamRead::Complete(exchange.response), 64), Err(StreamError::TooLarge));
}
