//! The tickers the service quotes.
use vstd::prelude::*;

use crate::text::same_text;

verus! {

/// How many tickers the service quotes.
pub const TICKER_COUNT: usize = 110;

/// The name of the ticker at position `i` of the supported list.
pub open spec fn ticker_name(i: usize) -> Seq<char> {
    match i {
        0 => "AAPL"@,
        1 => "MSFT"@,
        2 => "GOOGL"@,
        3 => "AMZN"@,
        4 => "NVDA"@,
        5 => "META"@,
        6 => "TSLA"@,
        7 => "JPM"@,
        8 => "JNJ"@,
        9 => "V"@,
        10 => "PG"@,
        11 => "UNH"@,
        12 => "HD"@,
        13 => "DIS"@,
        14 => "PYPL"@,
        15 => "NFLX"@,
        16 => "ADBE"@,
        17 => "CRM"@,
        18 => "INTC"@,
        19 => "CSCO"@,
        20 => "PFE"@,
        21 => "ABT"@,
        22 => "TMO"@,
        23 => "ABBV"@,
        24 => "LLY"@,
        25 => "PEP"@,
        26 => "COST"@,
        27 => "TXN"@,
        28 => "AVGO"@,
        29 => "ACN"@,
        30 => "QCOM"@,
        31 => "DHR"@,
        32 => "MDT"@,
        33 => "NKE"@,
        34 => "UPS"@,
        35 => "RTX"@,
        36 => "HON"@,
        37 => "ORCL"@,
        38 => "LIN"@,
        39 => "AMGN"@,
        40 => "LOW"@,
        41 => "SBUX"@,
        42 => "SPG"@,
        43 => "INTU"@,
        44 => "ISRG"@,
        45 => "T"@,
        46 => "BMY"@,
        47 => "DE"@,
        48 => "PLD"@,
        49 => "CI"@,
        50 => "CAT"@,
        51 => "GS"@,
        52 => "UNP"@,
        53 => "AMT"@,
        54 => "AXP"@,
        55 => "MS"@,
        56 => "BLK"@,
        57 => "GE"@,
        58 => "SYK"@,
        59 => "GILD"@,
        60 => "MMM"@,
        61 => "MO"@,
        62 => "LMT"@,
        63 => "FISV"@,
        64 => "ADI"@,
        65 => "BKNG"@,
        66 => "C"@,
        67 => "SO"@,
        68 => "NEE"@,
        69 => "ZTS"@,
        70 => "TGT"@,
        71 => "DUK"@,
        72 => "ICE"@,
        73 => "BDX"@,
        74 => "PNC"@,
        75 => "CMCSA"@,
        76 => "SCHW"@,
        77 => "MDLZ"@,
        78 => "TJX"@,
        79 => "USB"@,
        80 => "CL"@,
        81 => "EMR"@,
        82 => "APD"@,
        83 => "COF"@,
        84 => "FDX"@,
        85 => "AON"@,
        86 => "WM"@,
        87 => "ECL"@,
        88 => "ITW"@,
        89 => "VRTX"@,
        90 => "D"@,
        91 => "NSC"@,
        92 => "PGR"@,
        93 => "ETN"@,
        94 => "FIS"@,
        95 => "PSA"@,
        96 => "KLAC"@,
        97 => "MCD"@,
        98 => "ADP"@,
        99 => "APTV"@,
        100 => "AEP"@,
        101 => "MCO"@,
        102 => "SHW"@,
        103 => "DD"@,
        104 => "ROP"@,
        105 => "SLB"@,
        106 => "HUM"@,
        107 => "BSX"@,
        108 => "NOC"@,
        109 => "EW"@,
        _ => Seq::empty(),
    }
}

/// Whether the service quotes the ticker `t`.
pub open spec fn is_supported(t: Seq<char>) -> bool {
    exists|i: usize| i < TICKER_COUNT && ticker_name(i) == t
}

/// Whether `t` is one of the heavily traded tickers, whose volumes run higher.
pub open spec fn is_popular(t: Seq<char>) -> bool {
    t == "AAPL"@ || t == "MSFT"@ || t == "TSLA"@
}

/// The ticker at position `i` of the supported list.
pub fn ticker_at(i: usize) -> (t: &'static str)
    requires
        i < TICKER_COUNT,
    ensures
        t@ == ticker_name(i),
{
    match i {
        0 => "AAPL",
        1 => "MSFT",
        2 => "GOOGL",
        3 => "AMZN",
        4 => "NVDA",
        5 => "META",
        6 => "TSLA",
        7 => "JPM",
        8 => "JNJ",
        9 => "V",
        10 => "PG",
        11 => "UNH",
        12 => "HD",
        13 => "DIS",
        14 => "PYPL",
        15 => "NFLX",
        16 => "ADBE",
        17 => "CRM",
        18 => "INTC",
        19 => "CSCO",
        20 => "PFE",
        21 => "ABT",
        22 => "TMO",
        23 => "ABBV",
        24 => "LLY",
        25 => "PEP",
        26 => "COST",
        27 => "TXN",
        28 => "AVGO",
        29 => "ACN",
        30 => "QCOM",
        31 => "DHR",
        32 => "MDT",
        33 => "NKE",
        34 => "UPS",
        35 => "RTX",
        36 => "HON",
        37 => "ORCL",
        38 => "LIN",
        39 => "AMGN",
        40 => "LOW",
        41 => "SBUX",
        42 => "SPG",
        43 => "INTU",
        44 => "ISRG",
        45 => "T",
        46 => "BMY",
        47 => "DE",
        48 => "PLD",
        49 => "CI",
        50 => "CAT",
        51 => "GS",
        52 => "UNP",
        53 => "AMT",
        54 => "AXP",
        55 => "MS",
        56 => "BLK",
        57 => "GE",
        58 => "SYK",
        59 => "GILD",
        60 => "MMM",
        61 => "MO",
        62 => "LMT",
        63 => "FISV",
        64 => "ADI",
        65 => "BKNG",
        66 => "C",
        67 => "SO",
        68 => "NEE",
        69 => "ZTS",
        70 => "TGT",
        71 => "DUK",
        72 => "ICE",
        73 => "BDX",
        74 => "PNC",
        75 => "CMCSA",
        76 => "SCHW",
        77 => "MDLZ",
        78 => "TJX",
        79 => "USB",
        80 => "CL",
        81 => "EMR",
        82 => "APD",
        83 => "COF",
        84 => "FDX",
        85 => "AON",
        86 => "WM",
        87 => "ECL",
        88 => "ITW",
        89 => "VRTX",
        90 => "D",
        91 => "NSC",
        92 => "PGR",
        93 => "ETN",
        94 => "FIS",
        95 => "PSA",
        96 => "KLAC",
        97 => "MCD",
        98 => "ADP",
        99 => "APTV",
        100 => "AEP",
        101 => "MCO",
        102 => "SHW",
        103 => "DD",
        104 => "ROP",
        105 => "SLB",
        106 => "HUM",
        107 => "BSX",
        108 => "NOC",
        109 => "EW",
        _ => "EW",
    }
}

/// Whether the service quotes the ticker `t`.
pub fn supported_ticker(t: &str) -> (b: bool)
    ensures
        b == is_supported(t@),
{
    let mut i: usize = 0;
    while i < TICKER_COUNT
        invariant
            i <= TICKER_COUNT,
            forall|k: usize| k < i ==> ticker_name(k) != t@,
        decreases TICKER_COUNT - i,
    {
        if same_text(ticker_at(i), t) {
            return true;
        }
        i = i + 1;
    }
    false
}

/// Whether `t` is one of the heavily traded tickers.
pub fn popular_ticker(t: &str) -> (b: bool)
    ensures
        b == is_popular(t@),
{
    same_text(t, "AAPL") || same_text(t, "MSFT") || same_text(t, "TSLA")
}

} // verus!
