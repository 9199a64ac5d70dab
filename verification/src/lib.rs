//! A stock-quote streaming service: quote generation, the line protocol spoken
//! between client and server, and the decisions each session makes.
pub mod text;
pub mod tickers;
pub mod quote;
pub mod protocol;
pub mod laws;
pub mod session;
