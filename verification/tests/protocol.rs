use quoteapp::protocol::{
    bye_text, check_server_port, is_ping, parse_command, ping_datagram, pong_datagram,
    quote_message, reply_from, request_line, stream_command, stream_reply, unknown_command_text,
    usage_text, welcome_text, Command, ReplyError,
};
use quoteapp::quote::StockQuote;
use quoteapp::text::join_commas;

#[test]
fn stream_request_is_parsed() {
    match parse_command("STREAM 127.0.0.1:9090 AAPL,MSFT\n") {
        Command::Stream { address, tickers_text, tickers } => {
            assert_eq!(address, "127.0.0.1:9090");
            assert_eq!(tickers_text, "AAPL,MSFT");
            assert_eq!(tickers, vec!["AAPL", "MSFT"]);
        }
        _ => panic!("expected a stream request"),
    }
}

#[test]
fn extra_words_are_ignored() {
    match parse_command("  STREAM host:1 A,,B extra words") {
        Command::Stream { address, tickers, .. } => {
            assert_eq!(address, "host:1");
            assert_eq!(tickers, vec!["A", "", "B"]);
        }
        _ => panic!("expected a stream request"),
    }
}

#[test]
fn other_commands() {
    assert!(matches!(parse_command("STREAM 127.0.0.1:9090\n"), Command::StreamUsage));
    assert!(matches!(parse_command("STREAM"), Command::StreamUsage));
    assert!(matches!(parse_command("EXIT\n"), Command::Exit));
    assert!(matches!(parse_command("\u{3000}EXIT now"), Command::Exit));
    assert!(matches!(parse_command("   \r\n"), Command::Empty));
    assert!(matches!(parse_command(""), Command::Empty));
    assert!(matches!(parse_command("exit"), Command::Unknown));
    assert!(matches!(parse_command("HELLO"), Command::Unknown));
}

#[test]
fn client_request_round_trip() {
    let tickers: Vec<String> = vec!["AAPL".into(), "MSFT".into(), "TSLA".into()];
    let list = join_commas(&tickers);
    let command = stream_command(9090, &list);
    assert_eq!(command, "STREAM 127.0.0.1:9090 AAPL,MSFT,TSLA");
    let line = request_line(&command);
    assert_eq!(line, "STREAM 127.0.0.1:9090 AAPL,MSFT,TSLA\n");
    match parse_command(&line) {
        Command::Stream { address, tickers_text, tickers: got } => {
            assert_eq!(address, "127.0.0.1:9090");
            assert_eq!(tickers_text, list);
            assert_eq!(got, tickers);
        }
        _ => panic!("expected a stream request"),
    }
}

#[test]
fn empty_ticker_file_gives_usage_error() {
    let command = stream_command(9090, &join_commas(&Vec::new()));
    assert!(matches!(parse_command(&request_line(&command)), Command::StreamUsage));
}

#[test]
fn fixed_texts() {
    assert_eq!(welcome_text(), "Welcome to the Quote Server!\n");
    assert_eq!(bye_text(), "BYE\n");
    assert_eq!(usage_text(), "ERROR: usage STREAM host:port ticker1,ticker2\n");
    assert_eq!(unknown_command_text(), "ERROR: unknown command\n");
    assert_eq!(stream_reply("127.0.0.1:9090", "AAPL,MSFT"), "OK: streaming to 127.0.0.1:9090 for AAPL,MSFT\n");
}

#[test]
fn quote_datagram() {
    let q = StockQuote { ticker: "AAPL".to_string(), price_cents: 50012, volume: 1500, timestamp: 42 };
    assert_eq!(quote_message(&q), "QUOTE AAPL|500.12|1500|42\n");
}

#[test]
fn heartbeat_bytes() {
    assert_eq!(ping_datagram(), b"PING\n".to_vec());
    assert_eq!(pong_datagram(), b"PONG\n".to_vec());
    assert!(is_ping(&ping_datagram()));
    assert!(!is_ping(&pong_datagram()));
    assert!(!is_ping(b"PING"));
    assert!(!is_ping(b"PING\n\n"));
    assert!(!is_ping(b""));
}

#[test]
fn reply_needs_bytes() {
    assert_eq!(reply_from(3, "OK\n".to_string()).unwrap(), "OK\n");
    let e = reply_from(0, String::new()).unwrap_err();
    assert!(matches!(e, ReplyError::ServerClosed));
    assert_eq!(e.message(), "Server closed connection");
}

#[test]
fn reserved_ports_are_refused() {
    assert_eq!(check_server_port(8080).unwrap(), 8080);
    assert_eq!(check_server_port(1024).unwrap(), 1024);
    let e = check_server_port(1023).unwrap_err();
    assert_eq!(e.port, 1023);
    assert_eq!(e.message(), "invalid port number: 1023, must not be less then 1024");
    assert!(check_server_port(0).is_err());
}
