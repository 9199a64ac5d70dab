//! Properties that span several functions of the library.
use vstd::prelude::*;

use crate::protocol::{
    command_of, loopback_address, ping_bytes, pong_bytes, quote_message_text, stream_request,
    CommandView,
};
use crate::quote::{
    clamp_price, is_price_step, price_in_bounds, MAX_STEP_CENTS, START_PRICE_CENTS,
};
use crate::quote::{price_text, quote_text, volume_base, volume_span, StockQuote};
use crate::tickers::{is_supported, ticker_name, TICKER_COUNT};
use crate::session::{answers, ConnectionAction, whole_secs, PING_INTERVAL_SECS, PING_MAX_TIMEOUT_SECS};
use crate::text::{
    decimal, decimal_value, digit, holds, is_space, joined, lemma_decimal_value, pieces, lemma_decimal_digits, lemma_pieces_of_joined,
    lemma_words_lead, lemma_words_skip_space, words,
};

verus! {

/// Joining words that hold no whitespace with commas gives a word.
proof fn lemma_joined_is_word(xs: Seq<Seq<char>>)
    requires
        xs.len() > 0,
        forall|i: int| 0 <= i < xs.len() ==> (#[trigger] xs[i]).len() > 0,
        forall|i: int, j: int|
            0 <= i < xs.len() && 0 <= j < xs[i].len() ==> !is_space(#[trigger] xs[i][j]),
    ensures
        joined(xs, ',').len() > 0,
        forall|j: int|
            0 <= j < joined(xs, ',').len() ==> !is_space(#[trigger] joined(xs, ',')[j]),
    decreases xs.len(),
{
    if xs.len() > 1 {
        let rest = xs.drop_first();
        assert forall|i: int| 0 <= i < rest.len() implies (#[trigger] rest[i]).len() > 0 by {
            assert(rest[i] == xs[i + 1]);
        }
        assert forall|i: int, j: int|
            0 <= i < rest.len() && 0 <= j < rest[i].len() implies !is_space(
                #[trigger] rest[i][j],
            ) by {
            assert(rest[i] == xs[i + 1]);
        }
        lemma_joined_is_word(rest);
        let s = xs[0] + seq![','] + joined(rest, ',');
        assert(xs[0].len() > 0);
        assert forall|j: int| 0 <= j < s.len() implies !is_space(#[trigger] s[j]) by {
            if j < xs[0].len() {
                assert(s[j] == xs[0][j]);
            } else if j == xs[0].len() {
                assert(s[j] == ',');
            } else {
                assert(s[j] == joined(rest, ',')[j - xs[0].len() - 1]);
            }
        }
    }
}

/// The request a client builds for a list of tickers is read by the server as
/// a `STREAM` to the client's loopback address for exactly those tickers,
/// provided each ticker is a non-empty word without commas.
pub proof fn law_stream_request_round_trip(port: nat, tickers: Seq<Seq<char>>)
    requires
        tickers.len() > 0,
        forall|i: int| 0 <= i < tickers.len() ==> (#[trigger] tickers[i]).len() > 0,
        forall|i: int| 0 <= i < tickers.len() ==> !holds(#[trigger] tickers[i], ','),
        forall|i: int, j: int|
            0 <= i < tickers.len() && 0 <= j < tickers[i].len() ==> !is_space(
                #[trigger] tickers[i][j],
            ),
    ensures
        command_of(stream_request(port, joined(tickers, ',')) + "\n"@) == (CommandView::Stream {
            address: loopback_address(port),
            tickers_text: joined(tickers, ','),
            tickers,
        }),
{
    reveal_strlit("STREAM ");
    reveal_strlit("STREAM");
    reveal_strlit("127.0.0.1:");
    reveal_strlit(" ");
    reveal_strlit("\n");
    let list = joined(tickers, ',');
    lemma_joined_is_word(tickers);
    lemma_pieces_of_joined(tickers, ',');
    let addr = loopback_address(port);
    lemma_decimal_digits(port);
    assert forall|j: int| 0 <= j < addr.len() implies !is_space(#[trigger] addr[j]) by {
        if j >= 10 {
            assert(addr[j] == decimal(port)[j - 10]);
        }
    }
    let stream = "STREAM"@;
    assert forall|j: int| 0 <= j < stream.len() implies !is_space(#[trigger] stream[j]) by {}
    let nl = seq!['\n'];
    let tail3 = list + nl;
    let tail2 = seq![' '] + tail3;
    let tail1 = addr + tail2;
    let tail0 = seq![' '] + tail1;
    let line = stream + tail0;
    assert(stream_request(port, list) + "\n"@ =~= line);
    lemma_words_lead(stream, tail0);
    lemma_words_skip_space(' ', tail1);
    lemma_words_lead(addr, tail2);
    lemma_words_skip_space(' ', tail3);
    lemma_words_lead(list, nl);
    lemma_words_skip_space('\n', Seq::<char>::empty());
    assert(nl =~= seq!['\n'] + Seq::<char>::empty());
    assert(words(Seq::<char>::empty()) =~= Seq::<Seq<char>>::empty());
    assert(words(line) =~= seq![stream, addr, list]);
}


/// One quote moves a price that lies within the bounds to a price that lies
/// within the bounds, and by no more than the largest step.
pub proof fn law_price_step_bounded(last: int, next: int)
    requires
        price_in_bounds(last),
        is_price_step(last, next),
    ensures
        price_in_bounds(next),
        last - MAX_STEP_CENTS <= next <= last + MAX_STEP_CENTS,
{
    let moved = choose|moved: int|
        last - MAX_STEP_CENTS <= moved <= last + MAX_STEP_CENTS && next == #[trigger] clamp_price(
            moved,
        );
    assert(next == clamp_price(moved));
}

/// The heartbeat watchdog stops a stream exactly when six seconds or more
/// have passed since the last heartbeat: silence of more than five whole
/// seconds.
pub proof fn law_timeout_after_six_seconds(since: int, now: int)
    requires
        since <= now,
    ensures
        whole_secs(since, now) > PING_MAX_TIMEOUT_SECS <==> now - since >= 6000,
{
    let d = now - since;
    assert(d / 1000 > 5 <==> d >= 6000) by (nonlinear_arith)
        requires
            d >= 0,
    ;
}


/// The server's answer to a heartbeat is no heartbeat itself, so answers
/// cannot echo back and forth.
pub proof fn law_pong_is_no_ping()
    ensures
        pong_bytes() != ping_bytes(),
{
    assert(pong_bytes()[1] != ping_bytes()[1]);
}


/// A client that sends a heartbeat every heartbeat interval keeps its stream:
/// up to one interval after a heartbeat, the watchdog has counted no more
/// than the timeout.
pub proof fn law_heartbeats_keep_stream(last: int, now: int)
    requires
        last <= now <= last + PING_INTERVAL_SECS * 1000,
    ensures
        whole_secs(last, now) <= PING_MAX_TIMEOUT_SECS,
{
    let d = now - last;
    assert(d / 1000 <= 2) by (nonlinear_arith)
        requires
            0 <= d <= 2000,
    ;
}

/// The prices of the quotes a generator makes, in order, each one step from
/// the one before and the first one step from the start price, all lie within
/// the bounds, and each lies no more than the largest step from the one before
/// (the first from the start price).
pub proof fn law_price_run(prices: Seq<int>)
    requires
        prices.len() > 0 ==> is_price_step(START_PRICE_CENTS as int, prices[0]),
        forall|i: int| 0 <= i < prices.len() - 1 ==> is_price_step(prices[i], #[trigger] prices[i + 1]),
    ensures
        prices.len() > 0 ==> START_PRICE_CENTS - MAX_STEP_CENTS <= prices[0] <= START_PRICE_CENTS
            + MAX_STEP_CENTS,
        forall|i: int| 0 <= i < prices.len() ==> price_in_bounds(#[trigger] prices[i]),
        forall|i: int|
            0 <= i < prices.len() - 1 ==> prices[i] - MAX_STEP_CENTS <= #[trigger] prices[i + 1]
                <= prices[i] + MAX_STEP_CENTS,
    decreases prices.len(),
{
    if prices.len() > 0 {
        law_price_step_bounded(START_PRICE_CENTS as int, prices[0]);
        let head = prices.drop_last();
        assert forall|i: int| 0 <= i < head.len() - 1 implies is_price_step(
            head[i],
            #[trigger] head[i + 1],
        ) by {
            assert(head[i] == prices[i]);
            assert(head[i + 1] == prices[i + 1]);
        }
        law_price_run(head);
        if prices.len() > 1 {
            let k = prices.len() - 2;
            assert(head[k] == prices[k]);
            assert(price_in_bounds(head[k]));
            assert(is_price_step(prices[k], prices[k + 1]));
            law_price_step_bounded(prices[k], prices[k + 1]);
        }
        assert forall|i: int| 0 <= i < prices.len() implies price_in_bounds(#[trigger] prices[i]) by {
            if i < prices.len() - 1 {
                assert(head[i] == prices[i]);
            }
        }
        assert forall|i: int| 0 <= i < prices.len() - 1 implies prices[i] - MAX_STEP_CENTS
            <= #[trigger] prices[i + 1] <= prices[i] + MAX_STEP_CENTS by {
            if i < prices.len() - 2 {
                assert(head[i] == prices[i]);
                assert(head[i + 1] == prices[i + 1]);
            } else {
                assert(head[i] == prices[i]);
                law_price_step_bounded(prices[i], prices[i + 1]);
            }
        }
    }
}


/// Decimal notation holds no character that is not a digit.
proof fn lemma_decimal_lacks(n: nat, c: char)
    requires
        !('0' <= c <= '9'),
    ensures
        !holds(decimal(n), c),
{
    lemma_decimal_digits(n);
    if holds(decimal(n), c) {
        let i = choose|i: int| 0 <= i < decimal(n).len() && decimal(n)[i] == c;
        assert('0' <= decimal(n)[i] <= '9');
    }
}

/// Splitting a quote's text at `|` gives back its four fields: the ticker, the
/// price, the volume and the timestamp; the volume and the timestamp read back
/// as the numbers they were, and the price splits at `.` into whole units and
/// exactly two digits of cents that read back as the price in cents. This
/// holds of every ticker without a `|`.
pub proof fn law_quote_text_round_trip(ticker: Seq<char>, cents: nat, volume: nat, timestamp: nat)
    requires
        !holds(ticker, '|'),
    ensures
        ({
            let f = pieces(quote_text(ticker, cents, volume, timestamp), '|');
            let p = pieces(f[1], '.');
            &&& f.len() == 4
            &&& f[0] == ticker
            &&& f[1] == price_text(cents)
            &&& decimal_value(f[2]) == volume
            &&& decimal_value(f[3]) == timestamp
            &&& p.len() == 2
            &&& p[1].len() == 2
            &&& decimal_value(p[0]) * 100 + decimal_value(p[1]) == cents
        }),
{
    let whole = decimal(cents / 100);
    let frac = seq![digit((cents % 100) / 10), digit(cents % 10)];
    let price = price_text(cents);
    assert(price =~= whole + seq!['.'] + frac);
    let v = decimal(volume);
    let t = decimal(timestamp);
    lemma_decimal_lacks(cents / 100, '|');
    lemma_decimal_lacks(cents / 100, '.');
    lemma_decimal_lacks(volume, '|');
    lemma_decimal_lacks(timestamp, '|');
    assert(!holds(frac, '|')) by {
        if holds(frac, '|') {
            let i = choose|i: int| 0 <= i < frac.len() && frac[i] == '|';
        }
    }
    assert(!holds(frac, '.')) by {
        if holds(frac, '.') {
            let i = choose|i: int| 0 <= i < frac.len() && frac[i] == '.';
        }
    }
    assert(!holds(price, '|')) by {
        if holds(price, '|') {
            let i = choose|i: int| 0 <= i < price.len() && price[i] == '|';
            if i < whole.len() {
                assert(whole[i] == '|');
            } else if i > whole.len() {
                assert(frac[i - whole.len() - 1] == '|');
            }
        }
    }
    // the four fields, joined at `|`
    let fields = seq![ticker, price, v, t];
    assert(fields.drop_first() =~= seq![price, v, t]);
    assert(seq![price, v, t].drop_first() =~= seq![v, t]);
    assert(seq![v, t].drop_first() =~= seq![t]);
    assert(joined(seq![t], '|') == t);
    assert(joined(seq![v, t], '|') == v + seq!['|'] + t);
    assert(joined(seq![price, v, t], '|') == price + seq!['|'] + joined(seq![v, t], '|'));
    assert(joined(fields, '|') == ticker + seq!['|'] + joined(seq![price, v, t], '|'));
    assert(quote_text(ticker, cents, volume, timestamp) =~= joined(fields, '|'));
    assert forall|i: int| 0 <= i < fields.len() implies !holds(#[trigger] fields[i], '|') by {}
    lemma_pieces_of_joined(fields, '|');
    // the price, joined at `.`
    let parts = seq![whole, frac];
    assert(parts.drop_first() =~= seq![frac]);
    assert(joined(seq![frac], '.') == frac);
    assert(price =~= joined(parts, '.'));
    assert forall|i: int| 0 <= i < parts.len() implies !holds(#[trigger] parts[i], '.') by {}
    lemma_pieces_of_joined(parts, '.');
    lemma_decimal_value(cents / 100);
    lemma_decimal_value(volume);
    lemma_decimal_value(timestamp);
    assert(frac.drop_last() =~= seq![digit((cents % 100) / 10)]);
    assert(frac.drop_last().drop_last() =~= Seq::<char>::empty());
    assert(decimal_value(Seq::<char>::empty()) == 0);
    assert(decimal_value(frac.drop_last()) == (cents % 100) / 10);
    assert(decimal_value(frac) == ((cents % 100) / 10) * 10 + cents % 10);
    assert(((cents % 100) / 10) * 10 + cents % 10 == cents % 100) by (nonlinear_arith);
    assert((cents / 100) * 100 + cents % 100 == cents) by (nonlinear_arith);
}


/// The service quotes exactly these 110 tickers, named one by one.
pub proof fn law_quoted_tickers()
    ensures
        TICKER_COUNT == 110,
        is_supported("AAPL"@),
        is_supported("MSFT"@),
        is_supported("GOOGL"@),
        is_supported("AMZN"@),
        is_supported("NVDA"@),
        is_supported("META"@),
        is_supported("TSLA"@),
        is_supported("JPM"@),
        is_supported("JNJ"@),
        is_supported("V"@),
        is_supported("PG"@),
        is_supported("UNH"@),
        is_supported("HD"@),
        is_supported("DIS"@),
        is_supported("PYPL"@),
        is_supported("NFLX"@),
        is_supported("ADBE"@),
        is_supported("CRM"@),
        is_supported("INTC"@),
        is_supported("CSCO"@),
        is_supported("PFE"@),
        is_supported("ABT"@),
        is_supported("TMO"@),
        is_supported("ABBV"@),
        is_supported("LLY"@),
        is_supported("PEP"@),
        is_supported("COST"@),
        is_supported("TXN"@),
        is_supported("AVGO"@),
        is_supported("ACN"@),
        is_supported("QCOM"@),
        is_supported("DHR"@),
        is_supported("MDT"@),
        is_supported("NKE"@),
        is_supported("UPS"@),
        is_supported("RTX"@),
        is_supported("HON"@),
        is_supported("ORCL"@),
        is_supported("LIN"@),
        is_supported("AMGN"@),
        is_supported("LOW"@),
        is_supported("SBUX"@),
        is_supported("SPG"@),
        is_supported("INTU"@),
        is_supported("ISRG"@),
        is_supported("T"@),
        is_supported("BMY"@),
        is_supported("DE"@),
        is_supported("PLD"@),
        is_supported("CI"@),
        is_supported("CAT"@),
        is_supported("GS"@),
        is_supported("UNP"@),
        is_supported("AMT"@),
        is_supported("AXP"@),
        is_supported("MS"@),
        is_supported("BLK"@),
        is_supported("GE"@),
        is_supported("SYK"@),
        is_supported("GILD"@),
        is_supported("MMM"@),
        is_supported("MO"@),
        is_supported("LMT"@),
        is_supported("FISV"@),
        is_supported("ADI"@),
        is_supported("BKNG"@),
        is_supported("C"@),
        is_supported("SO"@),
        is_supported("NEE"@),
        is_supported("ZTS"@),
        is_supported("TGT"@),
        is_supported("DUK"@),
        is_supported("ICE"@),
        is_supported("BDX"@),
        is_supported("PNC"@),
        is_supported("CMCSA"@),
        is_supported("SCHW"@),
        is_supported("MDLZ"@),
        is_supported("TJX"@),
        is_supported("USB"@),
        is_supported("CL"@),
        is_supported("EMR"@),
        is_supported("APD"@),
        is_supported("COF"@),
        is_supported("FDX"@),
        is_supported("AON"@),
        is_supported("WM"@),
        is_supported("ECL"@),
        is_supported("ITW"@),
        is_supported("VRTX"@),
        is_supported("D"@),
        is_supported("NSC"@),
        is_supported("PGR"@),
        is_supported("ETN"@),
        is_supported("FIS"@),
        is_supported("PSA"@),
        is_supported("KLAC"@),
        is_supported("MCD"@),
        is_supported("ADP"@),
        is_supported("APTV"@),
        is_supported("AEP"@),
        is_supported("MCO"@),
        is_supported("SHW"@),
        is_supported("DD"@),
        is_supported("ROP"@),
        is_supported("SLB"@),
        is_supported("HUM"@),
        is_supported("BSX"@),
        is_supported("NOC"@),
        is_supported("EW"@),
{
    assert(ticker_name(0) == "AAPL"@);
    assert(ticker_name(1) == "MSFT"@);
    assert(ticker_name(2) == "GOOGL"@);
    assert(ticker_name(3) == "AMZN"@);
    assert(ticker_name(4) == "NVDA"@);
    assert(ticker_name(5) == "META"@);
    assert(ticker_name(6) == "TSLA"@);
    assert(ticker_name(7) == "JPM"@);
    assert(ticker_name(8) == "JNJ"@);
    assert(ticker_name(9) == "V"@);
    assert(ticker_name(10) == "PG"@);
    assert(ticker_name(11) == "UNH"@);
    assert(ticker_name(12) == "HD"@);
    assert(ticker_name(13) == "DIS"@);
    assert(ticker_name(14) == "PYPL"@);
    assert(ticker_name(15) == "NFLX"@);
    assert(ticker_name(16) == "ADBE"@);
    assert(ticker_name(17) == "CRM"@);
    assert(ticker_name(18) == "INTC"@);
    assert(ticker_name(19) == "CSCO"@);
    assert(ticker_name(20) == "PFE"@);
    assert(ticker_name(21) == "ABT"@);
    assert(ticker_name(22) == "TMO"@);
    assert(ticker_name(23) == "ABBV"@);
    assert(ticker_name(24) == "LLY"@);
    assert(ticker_name(25) == "PEP"@);
    assert(ticker_name(26) == "COST"@);
    assert(ticker_name(27) == "TXN"@);
    assert(ticker_name(28) == "AVGO"@);
    assert(ticker_name(29) == "ACN"@);
    assert(ticker_name(30) == "QCOM"@);
    assert(ticker_name(31) == "DHR"@);
    assert(ticker_name(32) == "MDT"@);
    assert(ticker_name(33) == "NKE"@);
    assert(ticker_name(34) == "UPS"@);
    assert(ticker_name(35) == "RTX"@);
    assert(ticker_name(36) == "HON"@);
    assert(ticker_name(37) == "ORCL"@);
    assert(ticker_name(38) == "LIN"@);
    assert(ticker_name(39) == "AMGN"@);
    assert(ticker_name(40) == "LOW"@);
    assert(ticker_name(41) == "SBUX"@);
    assert(ticker_name(42) == "SPG"@);
    assert(ticker_name(43) == "INTU"@);
    assert(ticker_name(44) == "ISRG"@);
    assert(ticker_name(45) == "T"@);
    assert(ticker_name(46) == "BMY"@);
    assert(ticker_name(47) == "DE"@);
    assert(ticker_name(48) == "PLD"@);
    assert(ticker_name(49) == "CI"@);
    assert(ticker_name(50) == "CAT"@);
    assert(ticker_name(51) == "GS"@);
    assert(ticker_name(52) == "UNP"@);
    assert(ticker_name(53) == "AMT"@);
    assert(ticker_name(54) == "AXP"@);
    assert(ticker_name(55) == "MS"@);
    assert(ticker_name(56) == "BLK"@);
    assert(ticker_name(57) == "GE"@);
    assert(ticker_name(58) == "SYK"@);
    assert(ticker_name(59) == "GILD"@);
    assert(ticker_name(60) == "MMM"@);
    assert(ticker_name(61) == "MO"@);
    assert(ticker_name(62) == "LMT"@);
    assert(ticker_name(63) == "FISV"@);
    assert(ticker_name(64) == "ADI"@);
    assert(ticker_name(65) == "BKNG"@);
    assert(ticker_name(66) == "C"@);
    assert(ticker_name(67) == "SO"@);
    assert(ticker_name(68) == "NEE"@);
    assert(ticker_name(69) == "ZTS"@);
    assert(ticker_name(70) == "TGT"@);
    assert(ticker_name(71) == "DUK"@);
    assert(ticker_name(72) == "ICE"@);
    assert(ticker_name(73) == "BDX"@);
    assert(ticker_name(74) == "PNC"@);
    assert(ticker_name(75) == "CMCSA"@);
    assert(ticker_name(76) == "SCHW"@);
    assert(ticker_name(77) == "MDLZ"@);
    assert(ticker_name(78) == "TJX"@);
    assert(ticker_name(79) == "USB"@);
    assert(ticker_name(80) == "CL"@);
    assert(ticker_name(81) == "EMR"@);
    assert(ticker_name(82) == "APD"@);
    assert(ticker_name(83) == "COF"@);
    assert(ticker_name(84) == "FDX"@);
    assert(ticker_name(85) == "AON"@);
    assert(ticker_name(86) == "WM"@);
    assert(ticker_name(87) == "ECL"@);
    assert(ticker_name(88) == "ITW"@);
    assert(ticker_name(89) == "VRTX"@);
    assert(ticker_name(90) == "D"@);
    assert(ticker_name(91) == "NSC"@);
    assert(ticker_name(92) == "PGR"@);
    assert(ticker_name(93) == "ETN"@);
    assert(ticker_name(94) == "FIS"@);
    assert(ticker_name(95) == "PSA"@);
    assert(ticker_name(96) == "KLAC"@);
    assert(ticker_name(97) == "MCD"@);
    assert(ticker_name(98) == "ADP"@);
    assert(ticker_name(99) == "APTV"@);
    assert(ticker_name(100) == "AEP"@);
    assert(ticker_name(101) == "MCO"@);
    assert(ticker_name(102) == "SHW"@);
    assert(ticker_name(103) == "DD"@);
    assert(ticker_name(104) == "ROP"@);
    assert(ticker_name(105) == "SLB"@);
    assert(ticker_name(106) == "HUM"@);
    assert(ticker_name(107) == "BSX"@);
    assert(ticker_name(108) == "NOC"@);
    assert(ticker_name(109) == "EW"@);
}

/// The heavily traded tickers, whose quotes carry volumes from 1000 up to
/// 5999, are exactly AAPL, MSFT and TSLA; every other ticker's volumes run
/// from 100 up to 1099.
pub proof fn law_volume_ranges(t: Seq<char>)
    ensures
        (t == "AAPL"@ || t == "MSFT"@ || t == "TSLA"@) ==> volume_base(t) == 1000
            && volume_span(t) == 5000,
        !(t == "AAPL"@ || t == "MSFT"@ || t == "TSLA"@) ==> volume_base(t) == 100
            && volume_span(t) == 1000,
{
}

/// A quote's datagram is `QUOTE `, then fields split by `|` that read back as
/// the quote's ticker, price in cents (two digits after the point), volume and
/// timestamp, then a newline; this holds of every quote whose ticker has no `|`.
pub proof fn law_quote_message_fields(q: StockQuote)
    requires
        !holds(q.ticker@, '|'),
    ensures
        ({
            let m = quote_message_text(q);
            let f = pieces(m.subrange(6, m.len() - 1), '|');
            let p = pieces(f[1], '.');
            &&& m.len() > 7
            &&& m.take(6) == "QUOTE "@
            &&& m[m.len() - 1] == '\n'
            &&& f.len() == 4
            &&& f[0] == q.ticker@
            &&& decimal_value(f[2]) == q.volume
            &&& decimal_value(f[3]) == q.timestamp
            &&& p.len() == 2
            &&& p[1].len() == 2
            &&& decimal_value(p[0]) * 100 + decimal_value(p[1]) == q.price_cents
        }),
{
    reveal_strlit("QUOTE ");
    reveal_strlit("\n");
    let body = quote_text(q.ticker@, q.price_cents as nat, q.volume as nat, q.timestamp as nat);
    law_quote_text_round_trip(q.ticker@, q.price_cents as nat, q.volume as nat, q.timestamp as nat);
    let m = quote_message_text(q);
    assert(m =~= "QUOTE "@ + body + "\n"@);
    assert(m.subrange(6, m.len() - 1) =~= body);
    assert(m.take(6) =~= "QUOTE "@);
}

/// A server connection answers an accepted `STREAM` line with
/// `OK: streaming to `, the line's second word, ` for `, the line's third word
/// as it stands, and a newline.
pub proof fn law_stream_reply_echoes_request(line: Seq<char>, a: ConnectionAction)
    requires
        command_of(line) is Stream,
        answers(command_of(line), a),
    ensures
        a matches ConnectionAction::Stream { reply, .. } && reply@ == "OK: streaming to "@
            + words(line)[1] + " for "@ + words(line)[2] + "\n"@,
{
}

} // verus!
