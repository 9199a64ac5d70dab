//! The decisions each long-running task makes, one event at a time: a
//! server connection, a quote stream, the heartbeat watchdog, the quote
//! generator's loop, and the client's quote listener. The caller performs
//! the I/O, sleeps and waits that an action asks for and reports what happened.
use vstd::prelude::*;

use crate::protocol::{
    is_ping, ping_bytes, bye_text, command_of, parse_command, quote_message, quote_message_text, stream_reply,
    stream_reply_text, unknown_command_text, usage_text, Command, CommandView,
};
use crate::quote::StockQuote;
use crate::text::same_text;

verus! {

/// The tickers a client asked for, each held once.
pub struct TickerSet {
    items: Vec<String>,
}

impl View for TickerSet {
    type V = Set<Seq<char>>;

    closed spec fn view(&self) -> Set<Seq<char>> {
        self.items@.map_values(|t: String| t@).to_set()
    }
}

impl TickerSet {
    #[verifier::type_invariant]
    spec fn inv(self) -> bool {
        self.items@.map_values(|t: String| t@).no_duplicates()
    }

    /// The set of the tickers in `list`.
    pub fn from_list(list: Vec<String>) -> (s: Self)
        ensures
            s@ == list@.map_values(|t: String| t@).to_set(),
    {
        let ghost lv = list@.map_values(|t: String| t@);
        let mut items: Vec<String> = Vec::new();
        let mut i: usize = 0;
        while i < list.len()
            invariant
                lv == list@.map_values(|t: String| t@),
                i <= list.len(),
                items@.map_values(|t: String| t@).no_duplicates(),
                items@.map_values(|t: String| t@).to_set() == lv.take(i as int).to_set(),
            decreases list.len() - i,
        {
            let ghost iv = items@.map_values(|t: String| t@);
            let ghost prev = lv.take(i as int);
            let ghost next = lv.take(i + 1);
            let ghost x = lv[i as int];
            let found: bool = Self::find(&items, list[i].as_str());
            if !found {
                items.push(list[i].clone());
                assert(items@.map_values(|t: String| t@) =~= iv.push(x));
            }
            let ghost nv = items@.map_values(|t: String| t@);
            proof {
                assert(next =~= prev.push(x));
                assert(found ==> nv == iv);
                assert(!found ==> nv == iv.push(x));
                assert forall|y: Seq<char>| next.contains(y) implies nv.contains(y) by {
                    if y != x {
                        assert(prev.contains(y)) by {
                            let k = choose|k: int| 0 <= k < next.len() && #[trigger] next[k] == y;
                            assert(prev[k] == y);
                        }
                        assert(prev.to_set().contains(y));
                        assert(iv.to_set().contains(y));
                        let m = choose|m: int| 0 <= m < iv.len() && #[trigger] iv[m] == y;
                        assert(nv[m] == y);
                    } else if !found {
                        assert(nv[iv.len() as int] == y);
                    }
                }
                assert forall|y: Seq<char>| nv.contains(y) implies next.contains(y) by {
                    if y != x {
                        let m = choose|m: int| 0 <= m < nv.len() && #[trigger] nv[m] == y;
                        assert(iv[m] == y);
                        assert(iv.to_set().contains(y));
                        assert(prev.to_set().contains(y));
                        let k = choose|k: int| 0 <= k < prev.len() && #[trigger] prev[k] == y;
                        assert(next[k] == y);
                    } else {
                        assert(next[i as int] == y);
                    }
                }
                assert(nv.to_set() =~= next.to_set());
            }
            i = i + 1;
        }
        assert(lv.take(list.len() as int) =~= lv);
        TickerSet { items }
    }

    /// Whether `t` is among `items`.
    fn find(items: &Vec<String>, t: &str) -> (b: bool)
        ensures
            b == items@.map_values(|s: String| s@).contains(t@),
    {
        let ghost iv = items@.map_values(|s: String| s@);
        let mut i: usize = 0;
        while i < items.len()
            invariant
                iv == items@.map_values(|s: String| s@),
                i <= items.len(),
                forall|k: int| 0 <= k < i ==> iv[k] != t@,
            decreases items.len() - i,
        {
            if same_text(items[i].as_str(), t) {
                assert(iv[i as int] == t@);
                return true;
            }
            i = i + 1;
        }
        false
    }

    /// Whether the client asked for `t`.
    pub fn contains(&self, t: &str) -> (b: bool)
        ensures
            b == self@.contains(t@),
    {
        Self::find(&self.items, t)
    }
}


/// Where a `STREAM` asks quotes to go.
pub struct StreamTarget {
    /// The UDP address, `host:port`.
    pub address: String,
    /// The tickers, as the comma-separated list gave them.
    pub tickers: Vec<String>,
}

/// Something a server connection observed.
pub enum ConnectionEvent {
    /// A line from the client, as read (its newline may be there).
    Line(String),
    /// The client closed its side: reading gave no bytes.
    EndOfInput,
    /// Nothing to read yet.
    NothingYet,
    /// Reading failed.
    ReadFailed,
    /// The server is stopping.
    Shutdown,
}

/// What a server connection does next.
pub enum ConnectionAction {
    /// Nothing to answer; flush what was written and read on.
    Flush,
    /// Wait a moment, then read again.
    Wait,
    /// Write the reply and read on.
    Reply(String),
    /// A `STREAM` request: bind a UDP socket for it and raise the streaming
    /// flag; where there is a target, start the stream and its heartbeat
    /// watchdog; write the reply, and read on.
    Stream { target: Option<StreamTarget>, reply: String },
    /// Write the farewell and end the connection.
    Farewell(String),
    /// End the connection without a word.
    Close,
}

/// Whether `a` is the server's answer to a request line that means `cmd`.
pub open spec fn answers(cmd: CommandView, a: ConnectionAction) -> bool {
    match cmd {
        CommandView::Empty => a is Flush,
        CommandView::Stream { address, tickers_text, tickers } => {
            &&& a matches ConnectionAction::Stream { target: Some(t), reply }
            &&& t.address@ == address
            &&& t.tickers@.map_values(|x: String| x@) == tickers
            &&& reply@ == stream_reply_text(address, tickers_text)
        },
        CommandView::StreamUsage => {
            &&& a matches ConnectionAction::Stream { target: None, reply }
            &&& reply@ == "ERROR: usage STREAM host:port ticker1,ticker2\n"@
        },
        CommandView::Exit => (a matches ConnectionAction::Farewell(t) && t@ == "BYE\n"@),
        CommandView::Unknown => (a matches ConnectionAction::Reply(t) && t@
            == "ERROR: unknown command\n"@),
    }
}

/// A client's connection to the server's control port.
pub struct ConnectionSession {
    open: bool,
}

impl ConnectionSession {
    /// Whether the connection still reads requests.
    pub closed spec fn open(self) -> bool {
        self.open
    }

    /// A fresh connection, open.
    pub fn new() -> (s: Self)
        ensures
            s.open(),
    {
        ConnectionSession { open: true }
    }

    /// Whether the connection still reads requests.
    pub fn is_open(&self) -> (b: bool)
        ensures
            b == self.open(),
    {
        self.open
    }

    /// The server's answer to one event: a request line gets the answer its
    /// command calls for; `EXIT` and shutdown say goodbye and end the
    /// connection; the end of input or a read error end it silently.
    pub fn step(&mut self, event: ConnectionEvent) -> (a: ConnectionAction)
        ensures
            event is Shutdown ==> !final(self).open() && (a matches ConnectionAction::Farewell(t)
                && t@ == "BYE\n"@),
            !(event is Shutdown) && !old(self).open() ==> a is Close && !final(self).open(),
            old(self).open() ==> match event {
                ConnectionEvent::Line(l) => answers(command_of(l@), a) && final(self).open() == !(
                command_of(l@) is Exit),
                ConnectionEvent::EndOfInput => a is Close && !final(self).open(),
                ConnectionEvent::ReadFailed => a is Close && !final(self).open(),
                ConnectionEvent::NothingYet => a is Wait && final(self).open(),
                ConnectionEvent::Shutdown => true,
            },
    {
        match event {
            ConnectionEvent::Shutdown => {
                self.open = false;
                ConnectionAction::Farewell(String::from_str(bye_text()))
            },
            _ => {
                if !self.open {
                    return ConnectionAction::Close;
                }
                match event {
                    ConnectionEvent::Line(l) => {
                        let c: Command = parse_command(l.as_str());
                        match c {
                            Command::Empty => ConnectionAction::Flush,
                            Command::Stream { address, tickers_text, tickers } => {
                                let reply: String = stream_reply(
                                    address.as_str(),
                                    tickers_text.as_str(),
                                );
                                ConnectionAction::Stream {
                                    target: Some(StreamTarget { address, tickers }),
                                    reply,
                                }
                            },
                            Command::StreamUsage => ConnectionAction::Stream {
                                target: None,
                                reply: String::from_str(usage_text()),
                            },
                            Command::Exit => {
                                self.open = false;
                                ConnectionAction::Farewell(String::from_str(bye_text()))
                            },
                            Command::Unknown => ConnectionAction::Reply(
                                String::from_str(unknown_command_text()),
                            ),
                        }
                    },
                    ConnectionEvent::NothingYet => ConnectionAction::Wait,
                    _ => {
                        self.open = false;
                        ConnectionAction::Close
                    },
                }
            },
        }
    }
}

/// Something a quote stream observed.
pub enum StreamEvent {
    /// A quote came from the generator.
    Quote(StockQuote),
    /// No quote is waiting.
    NoQuote,
    /// The generator is gone.
    SourceClosed,
    /// Sending the last message failed.
    SendFailed,
    /// The server is stopping, or the client's heartbeats stopped.
    Stopped,
}

/// What a quote stream does next.
pub enum StreamAction {
    /// Send the message to the client; once it is sent, wake the heartbeat
    /// watchdog where `wake_watchdog` says so.
    Send { message: String, wake_watchdog: bool },
    /// Let the quote go: the client did not ask for its ticker.
    Skip,
    /// Wait a moment for the next quote.
    Wait,
    /// Send the farewell, wake the watchdog, and end the stream.
    Finish,
}

/// The quotes going to one client over UDP.
pub struct QuoteStream {
    tickers: TickerSet,
    sent_any: bool,
    active: bool,
}

impl QuoteStream {
    /// The tickers the client asked for.
    pub closed spec fn subscribed(self) -> Set<Seq<char>> {
        self.tickers@
    }

    /// Whether a quote has gone out.
    pub closed spec fn sent_any(self) -> bool {
        self.sent_any
    }

    /// Whether the stream still runs.
    pub closed spec fn active(self) -> bool {
        self.active
    }

    /// A running stream of the tickers in `tickers`, nothing sent yet.
    pub fn new(tickers: Vec<String>) -> (s: Self)
        ensures
            s.subscribed() == tickers@.map_values(|t: String| t@).to_set(),
            !s.sent_any(),
            s.active(),
    {
        QuoteStream { tickers: TickerSet::from_list(tickers), sent_any: false, active: true }
    }

    /// Whether the stream still runs.
    pub fn is_active(&self) -> (b: bool)
        ensures
            b == self.active(),
    {
        self.active
    }

    /// The stream's answer to one event: a quote of a subscribed ticker goes
    /// out as `QUOTE <quote>`, and the first one to go out wakes the watchdog;
    /// other quotes are let go; the end of the source, a failed send or a stop
    /// finish the stream.
    pub fn step(&mut self, event: StreamEvent) -> (a: StreamAction)
        ensures
            final(self).subscribed() == old(self).subscribed(),
            !old(self).active() ==> a is Finish && *final(self) == *old(self),
            old(self).active() ==> match event {
                StreamEvent::Quote(q) => if old(self).subscribed().contains(q.ticker@) {
                    &&& a matches StreamAction::Send { message, wake_watchdog }
                    &&& message@ == quote_message_text(q)
                    &&& wake_watchdog == !old(self).sent_any()
                    &&& final(self).sent_any()
                    &&& final(self).active()
                } else {
                    a is Skip && *final(self) == *old(self)
                },
                StreamEvent::NoQuote => a is Wait && *final(self) == *old(self),
                _ => a is Finish && !final(self).active() && final(self).sent_any()
                    == old(self).sent_any(),
            },
    {
        if !self.active {
            return StreamAction::Finish;
        }
        match event {
            StreamEvent::Quote(q) => {
                if self.tickers.contains(q.ticker.as_str()) {
                    let message: String = quote_message(&q);
                    let wake_watchdog: bool = !self.sent_any;
                    self.sent_any = true;
                    StreamAction::Send { message, wake_watchdog }
                } else {
                    StreamAction::Skip
                }
            },
            StreamEvent::NoQuote => StreamAction::Wait,
            _ => {
                self.active = false;
                StreamAction::Finish
            },
        }
    }
}


/// A stream whose client sends no heartbeat for more than this many whole
/// seconds is stopped.
pub const PING_MAX_TIMEOUT_SECS: u64 = 5;

/// How often, in seconds, a client sends its heartbeat.
pub const PING_INTERVAL_SECS: u64 = 2;

/// Whole seconds from `since` to `now`, both in milliseconds on one clock;
/// none where `now` comes first.
pub open spec fn whole_secs(since: int, now: int) -> int {
    if now >= since {
        (now - since) / 1000
    } else {
        0
    }
}

/// Something the heartbeat watchdog observed; times are milliseconds on one
/// monotonic clock.
pub enum PingEvent {
    /// A datagram came in at `now_ms`.
    Datagram { data: Vec<u8>, now_ms: u64 },
    /// Nothing came in; it is now `now_ms`.
    Idle { now_ms: u64 },
    /// Receiving failed.
    ReceiveFailed,
    /// The server is stopping.
    Stopped,
}

/// What the heartbeat watchdog does next.
pub enum PingAction {
    /// Answer the heartbeat with `PONG`.
    Pong,
    /// Report a datagram that is no heartbeat.
    Unexpected,
    /// Wait a moment, then receive again.
    Wait,
    /// The heartbeats stopped: stop the stream, and the watchdog.
    TimedOut,
    /// Stop the watchdog.
    Stop,
}

/// Watches a client's heartbeats for one quote stream.
pub struct PingMonitor {
    last_ping_ms: u64,
    active: bool,
}

impl PingMonitor {
    /// When the last heartbeat came, or the watchdog started.
    pub closed spec fn last_ping(self) -> int {
        self.last_ping_ms as int
    }

    /// Whether the watchdog still runs.
    pub closed spec fn active(self) -> bool {
        self.active
    }

    /// A running watchdog that starts counting at `now_ms`.
    pub fn new(now_ms: u64) -> (m: Self)
        ensures
            m.last_ping() == now_ms,
            m.active(),
    {
        PingMonitor { last_ping_ms: now_ms, active: true }
    }

    /// Whether the watchdog still runs.
    pub fn is_active(&self) -> (b: bool)
        ensures
            b == self.active(),
    {
        self.active
    }

    /// The watchdog's answer to one event: a heartbeat is answered and restarts
    /// the count; silence for more than the timeout in whole seconds stops the
    /// stream; a failure or a stop ends the watchdog.
    pub fn step(&mut self, event: &PingEvent) -> (a: PingAction)
        ensures
            !old(self).active() ==> a is Stop && *final(self) == *old(self),
            old(self).active() ==> match *event {
                PingEvent::Datagram { data, now_ms } => if data@ == ping_bytes() {
                    a is Pong && final(self).last_ping() == now_ms && final(self).active()
                } else {
                    a is Unexpected && *final(self) == *old(self)
                },
                PingEvent::Idle { now_ms } => if whole_secs(old(self).last_ping(), now_ms as int)
                    > PING_MAX_TIMEOUT_SECS {
                    a is TimedOut && !final(self).active()
                } else {
                    a is Wait && *final(self) == *old(self)
                },
                _ => a is Stop && !final(self).active(),
            },
    {
        if !self.active {
            return PingAction::Stop;
        }
        match event {
            PingEvent::Datagram { data, now_ms } => {
                if is_ping(data.as_slice()) {
                    self.last_ping_ms = *now_ms;
                    PingAction::Pong
                } else {
                    PingAction::Unexpected
                }
            },
            PingEvent::Idle { now_ms } => {
                let secs: u64 = if *now_ms >= self.last_ping_ms {
                    (*now_ms - self.last_ping_ms) / 1000
                } else {
                    0
                };
                if secs > PING_MAX_TIMEOUT_SECS {
                    self.active = false;
                    PingAction::TimedOut
                } else {
                    PingAction::Wait
                }
            },
            _ => {
                self.active = false;
                PingAction::Stop
            },
        }
    }
}

/// How handing a quote over to the streams went.
pub enum SendOutcome {
    /// The quote was taken.
    Sent,
    /// No room for it yet.
    Full,
    /// No stream can take quotes any more.
    Disconnected,
}

/// What the quote generator's loop does next.
pub enum GeneratorAction {
    /// Make the next quote.
    NextQuote,
    /// Wait a moment and hand the same quote over again.
    RetryLater,
    /// End the generator.
    Stop,
}

/// The generator loop's answer to handing a quote over.
pub fn after_handover(outcome: SendOutcome) -> (a: GeneratorAction)
    ensures
        outcome is Sent ==> a is NextQuote,
        outcome is Full ==> a is RetryLater,
        outcome is Disconnected ==> a is Stop,
{
    match outcome {
        SendOutcome::Sent => GeneratorAction::NextQuote,
        SendOutcome::Full => GeneratorAction::RetryLater,
        SendOutcome::Disconnected => GeneratorAction::Stop,
    }
}

/// The client's side of the quote stream: it learns the server's UDP address
/// from the first datagram and hands it to its heartbeat sender.
pub struct QuoteListener {
    address_known: bool,
}

impl QuoteListener {
    /// Whether the server's address has been handed on.
    pub closed spec fn address_known(self) -> bool {
        self.address_known
    }

    /// A listener that has not heard from the server.
    pub fn new() -> (l: Self)
        ensures
            !l.address_known(),
    {
        QuoteListener { address_known: false }
    }

    /// Whether the sender of the datagram just received is to be handed to the
    /// heartbeat sender: only for the first datagram.
    pub fn on_datagram(&mut self) -> (hand_on: bool)
        ensures
            hand_on == !old(self).address_known(),
            final(self).address_known(),
    {
        let hand_on: bool = !self.address_known;
        self.address_known = true;
        hand_on
    }
}


/// Something the client's heartbeat sender observed.
pub enum PingerEvent {
    /// The quote listener never learned the server's address.
    NoServerAddress,
    /// A heartbeat went out.
    Sent,
    /// Sending a heartbeat failed.
    SendFailed,
    /// The client is stopping.
    Stopped,
}

/// What the client's heartbeat sender does next.
pub enum PingerAction {
    /// Wait this many seconds, then send the next heartbeat.
    PingAfter { secs: u64 },
    /// Stop sending heartbeats.
    Stop,
}

/// The heartbeat sender's answer to one event: after a heartbeat went out it
/// waits the heartbeat interval and sends the next; anything else stops it.
pub fn pinger_step(event: PingerEvent) -> (a: PingerAction)
    ensures
        (event is Sent) ==> (a matches PingerAction::PingAfter { secs } && secs
            == PING_INTERVAL_SECS),
        !(event is Sent) ==> a is Stop,
{
    match event {
        PingerEvent::Sent => PingerAction::PingAfter { secs: PING_INTERVAL_SECS },
        _ => PingerAction::Stop,
    }
}

} // verus!
