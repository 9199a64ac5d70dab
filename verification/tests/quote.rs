use quoteapp::quote::{
    next_price, quote_volume, timestamp_of, QuoteGenerator, QuoteGeneratorError, StockQuote, MAX_PRICE_CENTS,
    MIN_PRICE_CENTS, START_PRICE_CENTS,
};
use quoteapp::tickers::{popular_ticker, supported_ticker, ticker_at, TICKER_COUNT};

#[test]
fn test_generate_quote_successfully() {
    let mut quote_generator = QuoteGenerator::new();
    let quote = quote_generator.generate_quote("AAPL");
    assert!(quote.is_ok());
}

#[test]
fn test_generate_quote_not_supported() {
    let mut quote_generator = QuoteGenerator::new();
    let quote = quote_generator.generate_quote("AA");
    assert!(quote.is_err());
    assert_eq!(
        quote.unwrap_err(),
        QuoteGeneratorError::TrackerIsNotSupported("AA".to_string())
    );
}

#[test]
fn quote_fields_follow_the_request() {
    let mut g = QuoteGenerator::new();
    for _ in 0..200 {
        let q = g.generate_quote("MSFT").unwrap();
        assert_eq!(q.ticker, "MSFT");
        assert!(q.price_cents >= MIN_PRICE_CENTS && q.price_cents <= MAX_PRICE_CENTS);
        assert!(q.volume >= 1000 && q.volume < 6000);
        assert!(q.timestamp > 0);
    }
    for _ in 0..200 {
        let q = g.generate_quote("JPM").unwrap();
        assert!(q.volume >= 100 && q.volume < 1100);
    }
}

#[test]
fn first_quote_moves_less_than_one_step_from_start() {
    let mut g = QuoteGenerator::new();
    let q = g.generate_quote("NVDA").unwrap();
    let start = START_PRICE_CENTS as i64;
    let p = q.price_cents as i64;
    assert!(p >= start - 5000 && p <= start + 5000);
}

#[test]
fn consecutive_prices_differ_by_at_most_fifty_dollars() {
    let mut g = QuoteGenerator::new();
    let mut last = START_PRICE_CENTS as i64;
    for _ in 0..2000 {
        let q = g.random_quote();
        let p = q.price_cents as i64;
        assert!(p >= last - 5000 && p <= last + 5000);
        assert!(q.price_cents >= MIN_PRICE_CENTS && q.price_cents <= MAX_PRICE_CENTS);
        last = p;
    }
}

#[test]
fn unsupported_ticker_leaves_price_alone() {
    let mut g = QuoteGenerator::new();
    let a = g.generate_quote("AAPL").unwrap().price_cents;
    assert!(g.generate_quote("NOPE").is_err());
    let b = g.generate_quote("AAPL").unwrap().price_cents as i64;
    assert!(b >= a as i64 - 5000 && b <= a as i64 + 5000);
}

#[test]
fn random_tickers_are_always_quoted() {
    let mut g = QuoteGenerator::new();
    for _ in 0..500 {
        let t = QuoteGenerator::random_ticker();
        assert!(supported_ticker(t));
        assert!(g.generate_quote(t).is_ok());
    }
}

#[test]
fn next_price_clamps_to_bounds() {
    assert_eq!(next_price(50000, 100), 50100);
    assert_eq!(next_price(50000, -5000), 45000);
    assert_eq!(next_price(50000, 5000), 55000);
    assert_eq!(next_price(2500, -1000), 2000);
    assert_eq!(next_price(199000, 4999), 200000);
    assert_eq!(next_price(2000, 0), 2000);
    assert_eq!(next_price(200000, -1), 199999);
}

#[test]
fn volume_depends_on_popularity() {
    assert_eq!(quote_volume("AAPL", 0), 1000);
    assert_eq!(quote_volume("TSLA", 4999), 5999);
    assert_eq!(quote_volume("MSFT", 7), 1007);
    assert_eq!(quote_volume("GOOGL", 7), 107);
    assert_eq!(quote_volume("V", 999), 1099);
}

#[test]
fn quote_text_has_two_decimals() {
    let q = StockQuote { ticker: "AAPL".to_string(), price_cents: 51207, volume: 1234, timestamp: 99 };
    assert_eq!(q.to_string(), "AAPL|512.07|1234|99");
    let q = StockQuote { ticker: "T".to_string(), price_cents: 5, volume: 0, timestamp: 1700000000123 };
    assert_eq!(q.to_string(), "T|0.05|0|1700000000123");
    let q = StockQuote { ticker: "GE".to_string(), price_cents: 200000, volume: 4294967295, timestamp: 0 };
    assert_eq!(q.to_string(), "GE|2000.00|4294967295|0");
    let c = q.clone();
    assert_eq!(c.to_string(), q.to_string());
}

#[test]
fn error_message_names_the_ticker() {
    let e = QuoteGeneratorError::TrackerIsNotSupported("AA".to_string());
    assert_eq!(e.message(), "tracker AA is not supported");
}

#[test]
fn ticker_table() {
    assert_eq!(TICKER_COUNT, 110);
    assert_eq!(ticker_at(0), "AAPL");
    assert_eq!(ticker_at(109), "EW");
    assert!(supported_ticker("AAPL"));
    assert!(supported_ticker("EW"));
    assert!(supported_ticker("V"));
    assert!(!supported_ticker("aapl"));
    assert!(!supported_ticker("AA"));
    assert!(!supported_ticker(""));
    assert!(!supported_ticker("AAPL "));
    assert!(popular_ticker("TSLA"));
    assert!(!popular_ticker("NVDA"));
    let mut seen = std::collections::HashSet::new();
    for i in 0..TICKER_COUNT {
        assert!(seen.insert(ticker_at(i)));
    }
}

#[test]
fn draws_vary() {
    let mut tickers = std::collections::HashSet::new();
    for _ in 0..500 {
        tickers.insert(QuoteGenerator::random_ticker());
    }
    assert!(tickers.len() > 10);
    let mut g = QuoteGenerator::new();
    let mut prices = std::collections::HashSet::new();
    let mut volumes = std::collections::HashSet::new();
    for _ in 0..200 {
        let q = g.generate_quote("AAPL").unwrap();
        prices.insert(q.price_cents);
        volumes.insert(q.volume);
    }
    assert!(prices.len() > 10);
    assert!(volumes.len() > 10);
}

#[test]
fn timestamps_from_clock_readings() {
    assert_eq!(timestamp_of(Some(1_700_000_000_123)), 1_700_000_000_123);
    assert_eq!(timestamp_of(None), 0);
    assert_eq!(timestamp_of(Some((1u128 << 64) + 5)), 5);
}

#[test]
fn quote_text_splits_back_into_its_fields() {
    for (ticker, cents, volume, ts) in [
        ("AAPL", 51207u64, 1234u32, 99u64),
        ("T", 5, 0, 1_700_000_000_123),
        ("GE", 200000, u32::MAX, u64::MAX),
    ] {
        let q = StockQuote { ticker: ticker.to_string(), price_cents: cents, volume, timestamp: ts };
        let text = q.to_string();
        let f: Vec<&str> = text.split('|').collect();
        assert_eq!(f.len(), 4);
        assert_eq!(f[0], ticker);
        assert_eq!(f[2].parse::<u32>(), Ok(volume));
        assert_eq!(f[3].parse::<u64>(), Ok(ts));
        let p: Vec<&str> = f[1].split('.').collect();
        assert_eq!(p.len(), 2);
        assert_eq!(p[1].len(), 2);
        assert_eq!(p[0].parse::<u64>().unwrap() * 100 + p[1].parse::<u64>().unwrap(), cents);
    }
}

#[test]
fn a_first_quote_can_reach_a_full_step() {
    // a step of 50.00 either way is within reach of one quote
    assert_eq!(next_price(START_PRICE_CENTS, 5000), 55000);
    assert_eq!(next_price(START_PRICE_CENTS, -5000), 45000);
}
