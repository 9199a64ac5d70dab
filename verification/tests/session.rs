use quoteapp::protocol::ping_datagram;
use quoteapp::quote::StockQuote;
use quoteapp::session::{
    after_handover, pinger_step, PingerAction, PingerEvent, PING_INTERVAL_SECS, ConnectionAction, ConnectionEvent, ConnectionSession, GeneratorAction,
    PingAction, PingEvent, PingMonitor, QuoteListener, QuoteStream, SendOutcome, StreamAction,
    StreamEvent, TickerSet,
};

fn line(s: &str) -> ConnectionEvent {
    ConnectionEvent::Line(s.to_string())
}

#[test]
fn connection_answers_each_command() {
    let mut s = ConnectionSession::new();
    assert!(matches!(s.step(line("\n")), ConnectionAction::Flush));
    assert!(matches!(s.step(ConnectionEvent::NothingYet), ConnectionAction::Wait));
    match s.step(line("HELLO\n")) {
        ConnectionAction::Reply(r) => assert_eq!(r, "ERROR: unknown command\n"),
        _ => panic!(),
    }
    match s.step(line("STREAM 127.0.0.1:9090 AAPL,TSLA\n")) {
        ConnectionAction::Stream { target: Some(t), reply } => {
            assert_eq!(t.address, "127.0.0.1:9090");
            assert_eq!(t.tickers, vec!["AAPL", "TSLA"]);
            assert_eq!(reply, "OK: streaming to 127.0.0.1:9090 for AAPL,TSLA\n");
        }
        _ => panic!(),
    }
    match s.step(line("STREAM onlyhost\n")) {
        ConnectionAction::Stream { target: None, reply } => {
            assert_eq!(reply, "ERROR: usage STREAM host:port ticker1,ticker2\n")
        }
        _ => panic!(),
    }
    assert!(s.is_open());
    match s.step(line("EXIT\n")) {
        ConnectionAction::Farewell(t) => assert_eq!(t, "BYE\n"),
        _ => panic!(),
    }
    assert!(!s.is_open());
    assert!(matches!(s.step(line("HELLO\n")), ConnectionAction::Close));
    match s.step(ConnectionEvent::Shutdown) {
        ConnectionAction::Farewell(t) => assert_eq!(t, "BYE\n"),
        _ => panic!(),
    }
}

#[test]
fn connection_ends_on_end_of_input_or_error() {
    let mut s = ConnectionSession::new();
    assert!(matches!(s.step(ConnectionEvent::EndOfInput), ConnectionAction::Close));
    assert!(!s.is_open());
    let mut s = ConnectionSession::new();
    assert!(matches!(s.step(ConnectionEvent::ReadFailed), ConnectionAction::Close));
    assert!(!s.is_open());
}

fn quote(t: &str) -> StockQuote {
    StockQuote { ticker: t.to_string(), price_cents: 12345, volume: 150, timestamp: 7 }
}

#[test]
fn stream_sends_subscribed_quotes_and_wakes_once() {
    let mut s = QuoteStream::new(vec!["AAPL".to_string(), "MSFT".to_string(), "AAPL".to_string()]);
    assert!(matches!(s.step(StreamEvent::Quote(quote("TSLA"))), StreamAction::Skip));
    assert!(matches!(s.step(StreamEvent::NoQuote), StreamAction::Wait));
    match s.step(StreamEvent::Quote(quote("AAPL"))) {
        StreamAction::Send { message, wake_watchdog } => {
            assert_eq!(message, "QUOTE AAPL|123.45|150|7\n");
            assert!(wake_watchdog);
        }
        _ => panic!(),
    }
    match s.step(StreamEvent::Quote(quote("MSFT"))) {
        StreamAction::Send { wake_watchdog, .. } => assert!(!wake_watchdog),
        _ => panic!(),
    }
    assert!(s.is_active());
    assert!(matches!(s.step(StreamEvent::Stopped), StreamAction::Finish));
    assert!(!s.is_active());
    assert!(matches!(s.step(StreamEvent::Quote(quote("AAPL"))), StreamAction::Finish));
}

#[test]
fn stream_finishes_on_failures() {
    let mut s = QuoteStream::new(vec!["AAPL".to_string()]);
    assert!(matches!(s.step(StreamEvent::SendFailed), StreamAction::Finish));
    let mut s = QuoteStream::new(vec!["AAPL".to_string()]);
    assert!(matches!(s.step(StreamEvent::SourceClosed), StreamAction::Finish));
}

#[test]
fn ticker_set_membership() {
    let s = TickerSet::from_list(vec!["A".into(), "B".into(), "A".into(), "".into()]);
    assert!(s.contains("A"));
    assert!(s.contains("B"));
    assert!(s.contains(""));
    assert!(!s.contains("C"));
}

#[test]
fn watchdog_times_out_after_six_silent_seconds() {
    let mut m = PingMonitor::new(1000);
    assert!(matches!(m.step(&PingEvent::Idle { now_ms: 6999 }), PingAction::Wait));
    assert!(matches!(m.step(&PingEvent::Datagram { data: ping_datagram(), now_ms: 5000 }), PingAction::Pong));
    assert!(matches!(m.step(&PingEvent::Idle { now_ms: 10999 }), PingAction::Wait));
    assert!(matches!(m.step(&PingEvent::Datagram { data: b"HELLO".to_vec(), now_ms: 10000 }), PingAction::Unexpected));
    assert!(matches!(m.step(&PingEvent::Idle { now_ms: 11000 }), PingAction::TimedOut));
    assert!(!m.is_active());
    assert!(matches!(m.step(&PingEvent::Idle { now_ms: 11001 }), PingAction::Stop));
}

#[test]
fn watchdog_stops_on_failure() {
    let mut m = PingMonitor::new(0);
    assert!(matches!(m.step(&PingEvent::ReceiveFailed), PingAction::Stop));
    assert!(!m.is_active());
    let mut m = PingMonitor::new(0);
    assert!(matches!(m.step(&PingEvent::Stopped), PingAction::Stop));
}

#[test]
fn generator_handover() {
    assert!(matches!(after_handover(SendOutcome::Sent), GeneratorAction::NextQuote));
    assert!(matches!(after_handover(SendOutcome::Full), GeneratorAction::RetryLater));
    assert!(matches!(after_handover(SendOutcome::Disconnected), GeneratorAction::Stop));
}

#[test]
fn listener_hands_on_only_the_first_sender() {
    let mut l = QuoteListener::new();
    assert!(l.on_datagram());
    assert!(!l.on_datagram());
    assert!(!l.on_datagram());
}

#[test]
fn heartbeat_sender_waits_the_interval_then_pings_again() {
    assert_eq!(PING_INTERVAL_SECS, 2);
    assert!(matches!(pinger_step(PingerEvent::Sent), PingerAction::PingAfter { secs: 2 }));
    assert!(matches!(pinger_step(PingerEvent::SendFailed), PingerAction::Stop));
    assert!(matches!(pinger_step(PingerEvent::NoServerAddress), PingerAction::Stop));
    assert!(matches!(pinger_step(PingerEvent::Stopped), PingerAction::Stop));
}

#[test]
fn pinging_every_interval_keeps_the_watchdog_waiting() {
    let mut m = PingMonitor::new(0);
    let mut t = 0u64;
    for _ in 0..50 {
        t += 2000;
        assert!(matches!(m.step(&PingEvent::Idle { now_ms: t }), PingAction::Wait));
        assert!(matches!(m.step(&PingEvent::Datagram { data: ping_datagram(), now_ms: t }), PingAction::Pong));
    }
    assert!(m.is_active());
}
