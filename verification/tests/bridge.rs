use easy_quic::bridge::ChatApp;
use easy_quic::bridge::is_blank;
use easy_quic::bridge::Outbound;
use easy_quic::bridge::Submission;
use easy_quic::client::SessionError;
use easy_quic::protocol::StreamError;
use easy_quic::server::Termination;

fn texts(app: &ChatApp) -> Vec<(String, bool)> {
    app.messages().iter().map(|m| (m.text.clone(), m.is_sent)).collect()
}

fn take(app: &mut ChatApp) -> Option<String> {
    match app.next_outbound() {
        Outbound::Next(text) => Some(text),
        Outbound::Empty => None,
        Outbound::Closed => None,
    }
}

#[test]
fn a_new_feed_is_empty() {
    let mut app = ChatApp::new(4433);
    assert_eq!(app.server_port(), 4433);
    assert!(app.messages().is_empty());
    assert_eq!(app.pending_len(), 0);
    assert!(!app.is_closed());
    assert!(matches!(app.next_outbound(), Outbound::Empty));
}

#[test]
fn add_message_appends_one_record() {
    let mut app = ChatApp::new(4433);
    app.add_message("one".to_string(), true);
    app.add_message("two".to_string(), false);
    app.add_message("one".to_string(), true);
    assert_eq!(
        texts(&app),
        vec![("one".to_string(), true), ("two".to_string(), false), ("one".to_string(), true)]
    );
    assert_eq!(app.pending_len(), 0);
}

#[test]
fn submit_logs_and_queues() {
    let mut app = ChatApp::new(4433);
    assert_eq!(app.submit("hi".to_string()), Submission::Taken);
    assert_eq!(texts(&app), vec![("hi".to_string(), true)]);
    assert_eq!(app.pending_len(), 1);
    assert_eq!(take(&mut app), Some("hi".to_string()));
    assert_eq!(app.pending_len(), 0);
    assert_eq!(texts(&app), vec![("hi".to_string(), true)]);
}

#[test]
fn the_queue_keeps_the_order_of_submission() {
    let mut app = ChatApp::new(4433);
    app.submit("M1".to_string());
    app.submit("M2".to_string());
    assert_eq!(take(&mut app), Some("M1".to_string()));
    app.submit("M3".to_string());
    assert_eq!(take(&mut app), Some("M2".to_string()));
    assert_eq!(take(&mut app), Some("M3".to_string()));
    assert_eq!(take(&mut app), None);
    assert_eq!(
        texts(&app),
        vec![("M1".to_string(), true), ("M2".to_string(), true), ("M3".to_string(), true)]
    );
}

#[test]
fn a_closed_channel_is_drained_then_reported() {
    let mut app = ChatApp::new(4433);
    app.submit("last".to_string());
    app.close_channel();
    assert!(app.is_closed());
    assert_eq!(app.pending_len(), 1);
    assert!(matches!(app.next_outbound(), Outbound::Next(ref t) if t == "last"));
    assert!(matches!(app.next_outbound(), Outbound::Closed));
    assert!(matches!(app.next_outbound(), Outbound::Closed));
}

#[test]
fn a_closed_channel_queues_nothing() {
    let mut app = ChatApp::new(4433);
    app.close_channel();
    assert_eq!(app.submit("late".to_string()), Submission::Taken);
    assert_eq!(app.pending_len(), 0);
    assert_eq!(texts(&app), vec![("late".to_string(), true)]);
    assert!(matches!(app.next_outbound(), Outbound::Closed));
}

#[test]
fn a_peer_message_is_logged_under_its_marker() {
    let mut app = ChatApp::new(4433);
    app.record_peer_message("hello");
    app.record_peer_message("");
    assert_eq!(texts(&app), vec![("Peer: hello".to_string(), false), ("Peer: ".to_string(), false)]);
    assert_eq!(app.pending_len(), 0);
}

#[test]
fn a_response_is_logged_as_received() {
    let mut app = ChatApp::new(4433);
    app.submit("hello".to_string());
    assert_eq!(app.record_response(Ok("Echo: hello".to_string())), None);
    assert_eq!(texts(&app), vec![("hello".to_string(), true), ("Echo: hello".to_string(), false)]);
    assert_eq!(app.pending_len(), 1);
}

#[test]
fn a_failed_send_is_not_logged() {
    let mut app = ChatApp::new(4433);
    app.submit("hello".to_string());
    let failure = app.record_response(Err(SessionError::Stream(StreamError::TooLarge)));
    assert_eq!(failure, Some(SessionError::Stream(StreamError::TooLarge)));
    assert_eq!(app.record_response(Err(SessionError::ConnectionClosed)), Some(SessionError::ConnectionClosed));
    assert_eq!(texts(&app), vec![("hello".to_string(), true)]);
}

#[test]
fn earlier_records_never_change() {
    let mut app = ChatApp::new(4433);
    let mut seen: Vec<(String, bool)> = Vec::new();
    for i in 0..20 {
        match i % 4 {
            0 => {
                app.submit(format!("out {}", i));
            }
            1 => app.record_peer_message(&format!("in {}", i)),
            2 => {
                app.record_response(Ok(format!("Echo: {}", i)));
            }
            _ => {
                app.next_outbound();
            }
        }
        let now = texts(&app);
        assert!(now.len() >= seen.len() && now.len() <= seen.len() + 1);
        assert_eq!(&now[..seen.len()], &seen[..]);
        seen = now;
    }
    assert_eq!(seen.len(), 15);
}

#[test]
fn a_blank_text_is_refused() {
    let mut app = ChatApp::new(4433);
    for text in ["", " ", "   ", "\t", "\n", " \r\n\t ", "\u{a0}", "\u{2003}\u{3000}", "\u{85}\u{1680}\u{2028}\u{2029}"] {
        assert!(is_blank(text), "{:?}", text);
        assert_eq!(app.submit(text.to_string()), Submission::RefusedBlank);
    }
    assert!(app.messages().is_empty());
    assert_eq!(app.pending_len(), 0);
    assert!(matches!(app.next_outbound(), Outbound::Empty));
}

#[test]
fn a_text_with_anything_in_it_is_taken_as_typed() {
    let mut app = ChatApp::new(4433);
    for text in ["a", " a", "a ", "  hello  ", "\u{200b}", "\u{180e}", "_", "\0", " \u{feff} "] {
        assert!(!is_blank(text), "{:?}", text);
        assert_eq!(app.submit(text.to_string()), Submission::Taken);
        assert_eq!(take(&mut app), Some(text.to_string()));
    }
    assert_eq!(app.messages().len(), 9);
    assert_eq!(app.messages()[3].text, "  hello  ");
}

#[test]
fn is_blank_agrees_with_trimming() {
    for code in 0u32..0x3100 {
        if let Some(c) = char::from_u32(code) {
            let text = format!("{}{}", c, c);
            assert_eq!(is_blank(&text), text.trim().is_empty(), "U+{:04X}", code);
        }
    }
}

#[test]
fn submit_checked_goes_by_what_it_is_told() {
    let mut app = ChatApp::new(4433);
    assert_eq!(app.submit_checked("hello".to_string(), true), Submission::RefusedBlank);
    assert!(app.messages().is_empty());
    assert_eq!(app.pending_len(), 0);
    assert_eq!(app.submit_checked("  ".to_string(), false), Submission::Taken);
    assert_eq!(texts(&app), vec![("  ".to_string(), true)]);
    assert_eq!(take(&mut app), Some("  ".to_string()));
}

#[test]
fn the_end_of_the_connection_is_not_logged_either() {
    let mut app = ChatApp::new(4433);
    let ended = SessionError::ConnectionEnded(Termination::PeerClosed);
    assert_eq!(app.record_response(Err(ended)), Some(ended));
    assert!(app.messages().is_empty());
}
