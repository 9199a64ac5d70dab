# quoteapp

A stock-quote streaming service. A server makes up quotes for a fixed list of
tickers and streams them over UDP to clients that asked for them over a TCP
control connection; clients keep their stream alive with `PING` heartbeats.

- `src/` is the verified library (Verus):
  - `text.rs`: whitespace words, comma lists, decimal numbers, with the
    lemmas that relate them;
  - `tickers.rs`: the supported tickers;
  - `quote.rs`: quotes (prices in cents) and the quote generator;
  - `protocol.rs`: request parsing, replies, datagrams;
  - `session.rs`: the per-event decisions of a connection, a quote stream,
    the heartbeat watchdog, the generator loop and the client's listener;
  - `laws.rs`: properties that span several functions.
- `app/` is the program around it: sockets, threads, signals, command line
  (`server --port P`, `client --server-addr A --udp-port U --tickers-file F`).
- `tests/` runs the library on concrete values.
