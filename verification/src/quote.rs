//! Quotes and the generator that makes them up.
//!
//! Prices are held in cents: a quote shows its price with two decimals, and
//! whole cents are what it shows.
use vstd::prelude::*;

use crate::text::{decimal, digit, push_decimal};
use crate::tickers::{
    is_popular, is_supported, popular_ticker, supported_ticker, ticker_at, ticker_name,
    TICKER_COUNT,
};

verus! {

/// The price of a fresh generator, in cents.
pub const START_PRICE_CENTS: u64 = 50000;

/// No price falls below this many cents.
pub const MIN_PRICE_CENTS: u64 = 2000;

/// No price rises above this many cents.
pub const MAX_PRICE_CENTS: u64 = 200000;

/// A price moves by at most this many cents, up or down, per quote.
pub const MAX_STEP_CENTS: i64 = 5000;

/// One quote: a ticker, its price in cents, a traded volume and the time in
/// milliseconds since the Unix epoch.
#[derive(Debug)]
pub struct StockQuote {
    pub ticker: String,
    pub price_cents: u64,
    pub volume: u32,
    pub timestamp: u64,
}

/// Why a quote could not be made.
#[derive(Debug, PartialEq)]
pub enum QuoteGeneratorError {
    /// The ticker is not one the service quotes.
    TrackerIsNotSupported(String),
}

/// A price held within the service's bounds.
pub open spec fn clamp_price(p: int) -> int {
    if p < MIN_PRICE_CENTS {
        MIN_PRICE_CENTS as int
    } else if p > MAX_PRICE_CENTS {
        MAX_PRICE_CENTS as int
    } else {
        p
    }
}

/// Whether `next` is a price the generator may move to from `last` in one quote.
pub open spec fn is_price_step(last: int, next: int) -> bool {
    exists|moved: int|
        last - MAX_STEP_CENTS <= moved <= last + MAX_STEP_CENTS && next == #[trigger] clamp_price(
            moved,
        )
}

/// Whether `p` lies within the service's price bounds.
pub open spec fn price_in_bounds(p: int) -> bool {
    MIN_PRICE_CENTS <= p <= MAX_PRICE_CENTS
}

/// The least volume a quote of `t` carries.
pub open spec fn volume_base(t: Seq<char>) -> int {
    if is_popular(t) {
        1000
    } else {
        100
    }
}

/// How many distinct volumes a quote of `t` can carry, from the base up.
pub open spec fn volume_span(t: Seq<char>) -> int {
    if is_popular(t) {
        5000
    } else {
        1000
    }
}

/// A price in cents as text with two decimals, such as `512.07`.
pub open spec fn price_text(cents: nat) -> Seq<char> {
    decimal(cents / 100) + seq!['.', digit((cents % 100) / 10), digit(cents % 10)]
}

/// The text form of a quote: `ticker|price|volume|timestamp`.
pub open spec fn quote_text(ticker: Seq<char>, cents: nat, volume: nat, timestamp: nat) -> Seq<
    char,
> {
    ticker + seq!['|'] + price_text(cents) + seq!['|'] + decimal(volume) + seq!['|'] + decimal(
        timestamp,
    )
}

/// A number drawn uniformly from `low` (included) to `high` (excluded).
/// Calls `rand::random_range` on the range `low..high`; of the result the
/// contract claims only that it lies in that range.
#[verifier::external_body]
fn random_in_range(low: i64, high: i64) -> (r: i64)
    requires
        low < high,
    ensures
        low <= r < high,
{
    rand::random_range(low..high)
}

/// The system clock's reading, as std keeps it.
#[verifier::external_type_specification]
#[verifier::external_body]
pub struct ExSystemTime(std::time::SystemTime);

/// Reads the system clock.
/// Calls `std::time::SystemTime::now`; the reading depends on the clock, so
/// nothing is claimed of it.
#[verifier::external_body]
fn clock_now() -> std::time::SystemTime {
    std::time::SystemTime::now()
}

/// The time from the Unix epoch to `t`; `None` where `t` is earlier.
/// Calls `std::time::SystemTime::duration_since` with `std::time::UNIX_EPOCH`,
/// whose error it turns into `None`; nothing is claimed of the result, which
/// rests on the clock's reading.
#[verifier::external_body]
fn since_epoch(t: &std::time::SystemTime) -> Option<std::time::Duration> {
    t.duration_since(std::time::UNIX_EPOCH).ok()
}

/// The whole milliseconds in `d`.
/// Calls `std::time::Duration::as_millis`; the duration is opaque here, so
/// nothing is claimed of the result.
#[verifier::external_body]
fn whole_millis(d: &std::time::Duration) -> u128 {
    d.as_millis()
}

/// Milliseconds from the Unix epoch to the system clock's reading; `None`
/// where the clock reads earlier than the epoch.
fn clock_millis() -> Option<u128> {
    let now: std::time::SystemTime = clock_now();
    match since_epoch(&now) {
        Some(d) => Some(whole_millis(&d)),
        None => None,
    }
}

/// The timestamp a quote carries for a clock reading: the milliseconds cut to
/// 64 bits; a clock that reads earlier than the epoch gives 0.
pub fn timestamp_of(ms: Option<u128>) -> (t: u64)
    ensures
        t == match ms {
            Some(m) => m as u64,
            None => 0,
        },
{
    match ms {
        Some(m) => m as u64,
        None => 0,
    }
}

/// The price that follows `last` when the market moves it by `step` cents,
/// held within the bounds.
pub fn next_price(last: u64, step: i64) -> (p: u64)
    requires
        price_in_bounds(last as int),
        -MAX_STEP_CENTS <= step <= MAX_STEP_CENTS,
    ensures
        p == clamp_price(last + step),
        price_in_bounds(p as int),
{
    let moved: i64 = last as i64 + step;
    if moved < MIN_PRICE_CENTS as i64 {
        MIN_PRICE_CENTS
    } else if moved > MAX_PRICE_CENTS as i64 {
        MAX_PRICE_CENTS
    } else {
        moved as u64
    }
}

/// The volume of a quote of `ticker` given a draw from `0..volume_span`.
pub fn quote_volume(ticker: &str, draw: u32) -> (v: u32)
    requires
        draw < volume_span(ticker@),
    ensures
        v == volume_base(ticker@) + draw,
{
    if popular_ticker(ticker) {
        1000 + draw
    } else {
        100 + draw
    }
}

/// The text of a price in cents with two decimals.
fn push_price(out: &mut String, cents: u64)
    ensures
        final(out)@ == old(out)@ + price_text(cents as nat),
{
    push_decimal(out, cents / 100);
    proof {
        reveal_strlit(".");
    }
    out.append(".");
    push_decimal(out, (cents % 100) / 10);
    push_decimal(out, cents % 10);
    assert(final(out)@ =~= old(out)@ + price_text(cents as nat));
}

impl Clone for StockQuote {
    fn clone(&self) -> (q: Self)
        ensures
            q == *self,
    {
        StockQuote {
            ticker: self.ticker.clone(),
            price_cents: self.price_cents,
            volume: self.volume,
            timestamp: self.timestamp,
        }
    }
}

impl StockQuote {
    /// The quote as `ticker|price|volume|timestamp`, the price with two decimals.
    pub fn to_string(&self) -> (s: String)
        ensures
            s@ == quote_text(
                self.ticker@,
                self.price_cents as nat,
                self.volume as nat,
                self.timestamp as nat,
            ),
    {
        proof {
            reveal_strlit("|");
        }
        let mut s: String = String::new();
        s.append(self.ticker.as_str());
        s.append("|");
        push_price(&mut s, self.price_cents);
        s.append("|");
        push_decimal(&mut s, self.volume as u64);
        s.append("|");
        push_decimal(&mut s, self.timestamp);
        assert(s@ =~= quote_text(
            self.ticker@,
            self.price_cents as nat,
            self.volume as nat,
            self.timestamp as nat,
        ));
        s
    }
}

/// The error text `tracker <ticker> is not supported`.
pub open spec fn unsupported_text(ticker: Seq<char>) -> Seq<char> {
    "tracker "@ + ticker + " is not supported"@
}

impl QuoteGeneratorError {
    /// The message that describes the error.
    pub fn message(&self) -> (m: String)
        ensures
            m@ == (match self {
                QuoteGeneratorError::TrackerIsNotSupported(t) => unsupported_text(t@),
            }),
    {
        match self {
            QuoteGeneratorError::TrackerIsNotSupported(t) => {
                let mut m: String = String::from_str("tracker ");
                m.append(t.as_str());
                m.append(" is not supported");
                m
            },
        }
    }
}

/// Makes up quotes: each one moves the last price by a random step, within bounds.
pub struct QuoteGenerator {
    last_price: u64,
}

impl QuoteGenerator {
    #[verifier::type_invariant]
    spec fn inv(self) -> bool {
        price_in_bounds(self.last_price as int)
    }

    /// The price of the last quote made, in cents (the start price before any).
    pub closed spec fn price(self) -> int {
        self.last_price as int
    }

    /// A generator at the start price.
    pub fn new() -> (g: Self)
        ensures
            g.price() == START_PRICE_CENTS,
            price_in_bounds(g.price()),
    {
        QuoteGenerator { last_price: START_PRICE_CENTS }
    }

    /// A ticker drawn at random from those the service quotes.
    pub fn random_ticker() -> (t: &'static str)
        ensures
            is_supported(t@),
    {
        let i: i64 = random_in_range(0, TICKER_COUNT as i64);
        let t: &'static str = ticker_at(i as usize);
        assert(ticker_name(i as usize) == t@);
        t
    }

    /// A quote of `ticker`, whose price moves the generator's price by one step;
    /// an error, and no move, where the service does not quote `ticker`.
    pub fn generate_quote(&mut self, ticker: &str) -> (r: Result<StockQuote, QuoteGeneratorError>)
        ensures
            r is Ok <==> is_supported(ticker@),
            r matches Err(e) ==> e matches QuoteGeneratorError::TrackerIsNotSupported(t)
                && t@ == ticker@,
            r is Err ==> final(self).price() == old(self).price(),
            price_in_bounds(final(self).price()),
            r matches Ok(q) ==> {
                &&& q.ticker@ == ticker@
                &&& q.price_cents == final(self).price()
                &&& is_price_step(old(self).price(), final(self).price())
                &&& volume_base(ticker@) <= q.volume < volume_base(ticker@) + volume_span(
                    ticker@,
                )
            },
    {
        proof {
            use_type_invariant(&*self);
        }
        if !supported_ticker(ticker) {
            return Err(QuoteGeneratorError::TrackerIsNotSupported(String::from_str(ticker)));
        }
        let step: i64 = random_in_range(-MAX_STEP_CENTS, MAX_STEP_CENTS + 1);
        let price: u64 = next_price(self.last_price, step);
        self.last_price = price;
        let span: i64 = if popular_ticker(ticker) {
            5000
        } else {
            1000
        };
        let draw: i64 = random_in_range(0, span);
        let volume: u32 = quote_volume(ticker, draw as u32);
        Ok(
            StockQuote {
                ticker: String::from_str(ticker),
                price_cents: price,
                volume,
                timestamp: timestamp_of(clock_millis()),
            },
        )
    }

    /// A quote of a ticker drawn at random. A drawn ticker is always one the
    /// service quotes, so the quote is always made.
    pub fn random_quote(&mut self) -> (q: StockQuote)
        ensures
            is_supported(q.ticker@),
            q.price_cents == final(self).price(),
            is_price_step(old(self).price(), final(self).price()),
            price_in_bounds(final(self).price()),
            volume_base(q.ticker@) <= q.volume < volume_base(q.ticker@) + volume_span(q.ticker@),
    {
        let t: &'static str = Self::random_ticker();
        let r: Result<StockQuote, QuoteGeneratorError> = self.generate_quote(t);
        r.unwrap()
    }
}

} // verus!
