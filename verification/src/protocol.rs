//! The line protocol between client and server: the requests a client sends
//! over TCP, the replies the server writes back, and the datagrams of the
//! quote stream.
use vstd::prelude::*;

use crate::quote::{quote_text, StockQuote};
use crate::text::{decimal, pieces, push_decimal, same_text, split_commas, split_words, words};

verus! {

/// A request line as the server understands it.
pub enum Command {
    /// A line with nothing but whitespace.
    Empty,
    /// `STREAM <address> <tickers>`: stream quotes of the comma-separated
    /// tickers to the UDP address.
    Stream { address: String, tickers_text: String, tickers: Vec<String> },
    /// `STREAM` without both an address and a ticker list.
    StreamUsage,
    /// `EXIT`: the client leaves.
    Exit,
    /// Any other first word.
    Unknown,
}

/// What a request line means, over plain text.
pub ghost enum CommandView {
    Empty,
    Stream { address: Seq<char>, tickers_text: Seq<char>, tickers: Seq<Seq<char>> },
    StreamUsage,
    Exit,
    Unknown,
}

impl View for Command {
    type V = CommandView;

    open spec fn view(&self) -> CommandView {
        match self {
            Command::Empty => CommandView::Empty,
            Command::Stream { address, tickers_text, tickers } => CommandView::Stream {
                address: address@,
                tickers_text: tickers_text@,
                tickers: tickers@.map_values(|t: String| t@),
            },
            Command::StreamUsage => CommandView::StreamUsage,
            Command::Exit => CommandView::Exit,
            Command::Unknown => CommandView::Unknown,
        }
    }
}

/// The meaning of a request line: its first word names the command, a
/// `STREAM` takes the next two words as address and comma-separated tickers,
/// and words after those are ignored.
pub open spec fn command_of(line: Seq<char>) -> CommandView {
    let w = words(line);
    if w.len() == 0 {
        CommandView::Empty
    } else if w[0] == "STREAM"@ {
        if w.len() >= 3 {
            CommandView::Stream { address: w[1], tickers_text: w[2], tickers: pieces(w[2], ',') }
        } else {
            CommandView::StreamUsage
        }
    } else if w[0] == "EXIT"@ {
        CommandView::Exit
    } else {
        CommandView::Unknown
    }
}

/// Reads a request line.
pub fn parse_command(line: &str) -> (c: Command)
    ensures
        c@ == command_of(line@),
{
    let w: Vec<String> = split_words(line);
    let ghost wv = w@.map_values(|t: String| t@);
    assert(wv == words(line@));
    if w.len() == 0 {
        return Command::Empty;
    }
    assert(wv[0] == w@[0]@);
    if same_text(w[0].as_str(), "STREAM") {
        if w.len() >= 3 {
            assert(wv[1] == w@[1]@);
            assert(wv[2] == w@[2]@);
            let tickers: Vec<String> = split_commas(w[2].as_str());
            Command::Stream { address: w[1].clone(), tickers_text: w[2].clone(), tickers }
        } else {
            Command::StreamUsage
        }
    } else if same_text(w[0].as_str(), "EXIT") {
        Command::Exit
    } else {
        Command::Unknown
    }
}

/// The greeting the server writes when a client connects.
pub fn welcome_text() -> (t: &'static str)
    ensures
        t@ == "Welcome to the Quote Server!\n"@,
{
    "Welcome to the Quote Server!\n"
}

/// The farewell: the server's answer to `EXIT`, and the last word of a stream.
pub fn bye_text() -> (t: &'static str)
    ensures
        t@ == "BYE\n"@,
{
    "BYE\n"
}

/// The server's answer to a `STREAM` without address and tickers.
pub fn usage_text() -> (t: &'static str)
    ensures
        t@ == "ERROR: usage STREAM host:port ticker1,ticker2\n"@,
{
    "ERROR: usage STREAM host:port ticker1,ticker2\n"
}

/// The server's answer to a command it does not know.
pub fn unknown_command_text() -> (t: &'static str)
    ensures
        t@ == "ERROR: unknown command\n"@,
{
    "ERROR: unknown command\n"
}

/// The server's answer to an accepted `STREAM`.
pub open spec fn stream_reply_text(address: Seq<char>, tickers_text: Seq<char>) -> Seq<char> {
    "OK: streaming to "@ + address + " for "@ + tickers_text + "\n"@
}

/// The server's answer to an accepted `STREAM`: `OK: streaming to <address> for <tickers>`.
pub fn stream_reply(address: &str, tickers_text: &str) -> (r: String)
    ensures
        r@ == stream_reply_text(address@, tickers_text@),
{
    let mut r: String = String::from_str("OK: streaming to ");
    r.append(address);
    r.append(" for ");
    r.append(tickers_text);
    r.append("\n");
    r
}

/// The datagram that carries one quote: `QUOTE <quote>` and a newline.
pub open spec fn quote_message_text(q: StockQuote) -> Seq<char> {
    "QUOTE "@ + quote_text(q.ticker@, q.price_cents as nat, q.volume as nat, q.timestamp as nat)
        + "\n"@
}

/// The datagram that carries one quote.
pub fn quote_message(q: &StockQuote) -> (m: String)
    ensures
        m@ == quote_message_text(*q),
{
    let mut m: String = String::from_str("QUOTE ");
    let body: String = q.to_string();
    m.append(body.as_str());
    m.append("\n");
    m
}

/// The bytes of the heartbeat a client sends: `PING` and a newline.
pub open spec fn ping_bytes() -> Seq<u8> {
    seq![0x50u8, 0x49u8, 0x4eu8, 0x47u8, 0x0au8]
}

/// The bytes of the server's answer to a heartbeat: `PONG` and a newline.
pub open spec fn pong_bytes() -> Seq<u8> {
    seq![0x50u8, 0x4fu8, 0x4eu8, 0x47u8, 0x0au8]
}

/// The heartbeat datagram.
pub fn ping_datagram() -> (b: Vec<u8>)
    ensures
        b@ == ping_bytes(),
{
    let mut b: Vec<u8> = Vec::new();
    b.push(0x50);
    b.push(0x49);
    b.push(0x4e);
    b.push(0x47);
    b.push(0x0a);
    assert(b@ =~= ping_bytes());
    b
}

/// The answer to a heartbeat.
pub fn pong_datagram() -> (b: Vec<u8>)
    ensures
        b@ == pong_bytes(),
{
    let mut b: Vec<u8> = Vec::new();
    b.push(0x50);
    b.push(0x4f);
    b.push(0x4e);
    b.push(0x47);
    b.push(0x0a);
    assert(b@ =~= pong_bytes());
    b
}

/// Whether a received datagram is a heartbeat. A datagram that decodes, with
/// invalid UTF-8 replaced, to `PING` and a newline is exactly one with these bytes.
pub fn is_ping(data: &[u8]) -> (b: bool)
    ensures
        b == (data@ == ping_bytes()),
{
    if data.len() != 5 {
        return false;
    }
    let r: bool = data[0] == 0x50 && data[1] == 0x49 && data[2] == 0x4e && data[3] == 0x47
        && data[4] == 0x0a;
    if r {
        assert(data@ =~= ping_bytes());
    }
    r
}

/// The address a client asks quotes to be sent to: its UDP port on the loopback host.
pub open spec fn loopback_address(port: nat) -> Seq<char> {
    "127.0.0.1:"@ + decimal(port)
}

/// The request a client sends: `STREAM 127.0.0.1:<port> <tickers>`.
pub open spec fn stream_request(port: nat, tickers_text: Seq<char>) -> Seq<char> {
    "STREAM "@ + loopback_address(port) + " "@ + tickers_text
}

/// The request that asks for quotes of `tickers_text` on the local UDP port `udp_port`.
pub fn stream_command(udp_port: u16, tickers_text: &str) -> (c: String)
    ensures
        c@ == stream_request(udp_port as nat, tickers_text@),
{
    let mut c: String = String::from_str("STREAM 127.0.0.1:");
    push_decimal(&mut c, udp_port as u64);
    c.append(" ");
    c.append(tickers_text);
    proof {
        reveal_strlit("STREAM 127.0.0.1:");
        reveal_strlit("STREAM ");
        reveal_strlit("127.0.0.1:");
    }
    assert(c@ =~= stream_request(udp_port as nat, tickers_text@));
    c
}

/// A request as it goes over the wire: the request and a newline.
pub fn request_line(command: &str) -> (l: String)
    ensures
        l@ == command@ + "\n"@,
{
    let mut l: String = String::from_str(command);
    l.append("\n");
    l
}

/// Why the server's reply to a request did not come.
#[derive(Debug)]
pub enum ReplyError {
    /// The server closed the connection before replying.
    ServerClosed,
}

impl ReplyError {
    /// The message that describes the error.
    pub fn message(&self) -> (m: &'static str)
        ensures
            m@ == "Server closed connection"@,
    {
        "Server closed connection"
    }
}

/// The reply to a request, given what reading a line from the server gave:
/// no bytes means the server has closed the connection.
pub fn reply_from(bytes_read: usize, line: String) -> (r: Result<String, ReplyError>)
    ensures
        bytes_read == 0 <==> r is Err,
        r matches Ok(s) ==> s == line,
{
    if bytes_read == 0 {
        Err(ReplyError::ServerClosed)
    } else {
        Ok(line)
    }
}

/// The least port the server listens on: lower ones are reserved.
pub const MIN_SERVER_PORT: u16 = 1024;

/// A port the server refuses to listen on.
#[derive(Debug)]
pub struct InvalidPort {
    pub port: u16,
}

impl InvalidPort {
    /// The message that describes the error.
    pub fn message(&self) -> (m: String)
        ensures
            m@ == "invalid port number: "@ + decimal(self.port as nat)
                + ", must not be less then 1024"@,
    {
        let mut m: String = String::from_str("invalid port number: ");
        push_decimal(&mut m, self.port as u64);
        m.append(", must not be less then 1024");
        m
    }
}

/// The port the server may listen on, or the error where it is reserved.
pub fn check_server_port(port: u16) -> (r: Result<u16, InvalidPort>)
    ensures
        r is Ok <==> port >= MIN_SERVER_PORT,
        r matches Ok(p) ==> p == port,
        r matches Err(e) ==> e.port == port,
{
    if port < MIN_SERVER_PORT {
        Err(InvalidPort { port })
    } else {
        Ok(port)
    }
}

} // verus!
