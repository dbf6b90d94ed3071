//! Data sources: request URLs, the mapping of their answers onto stocks,
//! and the fallback strategy that tries several sources in turn.
//!
//! The requests themselves (network, JSON decoding, prices) are made by the
//! application; what is decided about them stands here.

use vstd::prelude::*;
use vstd::string::*;
use crate::model::{AdjustType, Exchange, KlinePeriod, Stock, str_eq, exchange_prefix};
use crate::text::{decimal, decimal_string, percent_encoded, url_encode};

verus! {

// ───────────── Tencent ─────────────

/// The lower-case market prefix that Tencent puts before a stock code.
pub open spec fn tencent_market(e: Exchange) -> Seq<char> {
    match e {
        Exchange::SH => "sh"@,
        Exchange::SZ => "sz"@,
        Exchange::BJ => "bj"@,
        Exchange::NYSE | Exchange::NASDAQ => "us"@,
    }
}

/// Tencent's code of a stock, e.g. "sz000001".
pub open spec fn spec_tencent_code(code: Seq<char>, e: Exchange) -> Seq<char> {
    tencent_market(e) + code
}

/// The Tencent K-line request URL.
pub open spec fn spec_kline_url(
    code: Seq<char>,
    e: Exchange,
    ktype: Seq<char>,
    start: Seq<char>,
    count: u32,
    adjust: Seq<char>,
) -> Seq<char> {
    "https://web.ifzq.gtimg.cn/appstock/app/fqkline/get?param="@ + spec_tencent_code(code, e) + ","@
        + ktype + ","@ + start + ",,"@ + decimal(count as nat) + ","@ + adjust
}

/// The Tencent adjustment parameter: forward adjustment ("qfq") unless
/// another adjustment is asked for, in which case none ("").
pub open spec fn spec_adjust_param(adjust: Option<AdjustType>) -> Seq<char> {
    match adjust {
        None => "qfq"@,
        Some(AdjustType::Forward) => "qfq"@,
        Some(_) => ""@,
    }
}

/// The series names to read daily bars from, in order of preference: the
/// forward-adjusted series, then the plain one, for "qfq"; else the plain one.
pub open spec fn spec_kline_series(adjust_param: Seq<char>) -> Seq<Seq<char>> {
    if adjust_param == "qfq"@ {
        seq!["qfqday"@, "day"@]
    } else {
        seq!["day"@]
    }
}

/// Tencent fetches daily bars for this many days at most.
pub const KLINE_COUNT: u32 = 2000;

/// The start date that daily bars are fetched from when none is given.
pub open spec fn default_kline_start() -> Seq<char> {
    "2005-01-01"@
}

/// A text with its ASCII capitals made small.
pub open spec fn ascii_lower(s: Seq<char>) -> Seq<char> {
    s.map_values(|c: char| if 'A' <= c <= 'Z' { ((c as u32) + 32) as char } else { c })
}

/// Tencent names a mainland market by its exchange prefix in small
/// letters ("sh", "sz", "bj") and every US market "us"; so a Tencent code
/// is the small-letter prefix followed by the stock code.
pub proof fn lemma_tencent_market_is_prefix(e: Exchange, code: Seq<char>)
    ensures
        (e == Exchange::SH || e == Exchange::SZ || e == Exchange::BJ) ==> tencent_market(e)
            == ascii_lower(exchange_prefix(e)),
        (e == Exchange::NYSE || e == Exchange::NASDAQ) ==> tencent_market(e) == "us"@,
        spec_tencent_code(code, e) == tencent_market(e) + code,
{
    reveal_strlit("sh");
    reveal_strlit("sz");
    reveal_strlit("bj");
    reveal_strlit("SH");
    reveal_strlit("SZ");
    reveal_strlit("BJ");
    assert(ascii_lower("SH"@) =~= "sh"@);
    assert(ascii_lower("SZ"@) =~= "sz"@);
    assert(ascii_lower("BJ"@) =~= "bj"@);
}

/// Tencent's source of daily and intraday bars.
pub struct TencentSource;

impl TencentSource {
    pub fn tencent_code(code: &str, exchange: &Exchange) -> (r: String)
        ensures
            r@ == spec_tencent_code(code@, *exchange),
    {
        let mut r = String::from_str(match exchange {
            Exchange::SH => "sh",
            Exchange::SZ => "sz",
            Exchange::BJ => "bj",
            Exchange::NYSE | Exchange::NASDAQ => "us",
        });
        proof {
            reveal_strlit("sh");
            reveal_strlit("sz");
            reveal_strlit("bj");
            reveal_strlit("us");
        }
        r.append(code);
        r
    }

    pub fn kline_url(
        code: &str,
        exchange: &Exchange,
        ktype: &str,
        start: &str,
        count: u32,
        adjust: &str,
    ) -> (r: String)
        ensures
            r@ == spec_kline_url(code@, *exchange, ktype@, start@, count, adjust@),
    {
        let tcode = Self::tencent_code(code, exchange);
        let mut r = String::from_str("https://web.ifzq.gtimg.cn/appstock/app/fqkline/get?param=");
        r.append(tcode.as_str());
        r.append(",");
        r.append(ktype);
        r.append(",");
        r.append(start);
        r.append(",,");
        let n = decimal_string(count as u64);
        r.append(n.as_str());
        r.append(",");
        r.append(adjust);
        r
    }

    /// The adjustment parameter of a daily-bar request.
    pub fn adjust_param(adjust: Option<AdjustType>) -> (r: &'static str)
        ensures
            r@ == spec_adjust_param(adjust),
    {
        match adjust {
            None => "qfq",
            Some(AdjustType::Forward) => "qfq",
            Some(_) => "",
        }
    }

    /// The series to read the daily bars from, most preferred first.
    pub fn kline_series(adjust_param: &str) -> (r: Vec<&'static str>)
        ensures
            r@.map_values(|s: &str| s@) == spec_kline_series(adjust_param@),
    {
        let mut r: Vec<&'static str> = Vec::new();
        if str_eq(adjust_param, "qfq") {
            r.push("qfqday");
        }
        r.push("day");
        assert(r@.map_values(|s: &str| s@) =~= spec_kline_series(adjust_param@));
        r
    }

    /// The URL of a daily-bar request: from `start` (or the default start
    /// date), with the adjustment asked for.
    pub fn daily_kline_url(code: &str, exchange: &Exchange, start: Option<&str>, adjust: Option<AdjustType>) -> (r: String)
        ensures
            r@ == spec_kline_url(
                code@,
                *exchange,
                "day"@,
                match start {
                    Some(s) => s@,
                    None => default_kline_start(),
                },
                KLINE_COUNT,
                spec_adjust_param(adjust),
            ),
    {
        let start = match start {
            Some(s) => s,
            None => "2005-01-01",
        };
        let adj = Self::adjust_param(adjust);
        Self::kline_url(code, exchange, "day", start, KLINE_COUNT, adj)
    }
}

// ───────────── Yahoo Finance ─────────────

/// The URL of a Yahoo chart request.
pub open spec fn spec_chart_url(code: Seq<char>, range: Seq<char>, interval: Seq<char>) -> Seq<char> {
    "https://query1.finance.yahoo.com/v8/finance/chart/"@ + code + "?range="@ + range
        + "&interval="@ + interval + "&includePrePost=false"@
}

pub open spec fn spec_yahoo_range(p: KlinePeriod) -> Seq<char> {
    match p {
        KlinePeriod::Daily => "2y"@,
        KlinePeriod::Weekly => "5y"@,
        KlinePeriod::Monthly => "10y"@,
        KlinePeriod::Yearly => "max"@,
    }
}

pub open spec fn spec_yahoo_interval(p: KlinePeriod) -> Seq<char> {
    match p {
        KlinePeriod::Daily => "1d"@,
        KlinePeriod::Weekly => "1wk"@,
        KlinePeriod::Monthly => "1mo"@,
        KlinePeriod::Yearly => "3mo"@,
    }
}

/// The exchange of a Yahoo exchange code; none for markets that are not
/// followed.
pub open spec fn spec_yahoo_exchange(s: Seq<char>) -> Option<Exchange> {
    if s == "NYQ"@ || s == "NYE"@ {
        Some(Exchange::NYSE)
    } else if s == "NAS"@ || s == "NMS"@ || s == "NCM"@ || s == "NGM"@ {
        Some(Exchange::NASDAQ)
    } else if s == "SHS"@ || s == "SHH"@ {
        Some(Exchange::SH)
    } else if s == "SZN"@ || s == "SHE"@ {
        Some(Exchange::SZ)
    } else {
        None
    }
}

/// The Yahoo exchange codes of each followed market: NYSE is "NYQ" and
/// "NYE"; NASDAQ's markets are "NAS", "NMS", "NCM" and "NGM"; Shanghai is
/// "SHS" and "SHH"; Shenzhen is "SZN" and "SHE". Beijing has none.
pub open spec fn yahoo_codes(e: Exchange) -> Set<Seq<char>> {
    match e {
        Exchange::NYSE => set!["NYQ"@, "NYE"@],
        Exchange::NASDAQ => set!["NAS"@, "NMS"@, "NCM"@, "NGM"@],
        Exchange::SH => set!["SHS"@, "SHH"@],
        Exchange::SZ => set!["SZN"@, "SHE"@],
        Exchange::BJ => Set::empty(),
    }
}

/// A Yahoo code names an exchange exactly when it is one of that
/// exchange's codes; any other code names none.
pub proof fn lemma_yahoo_codes(s: Seq<char>, e: Exchange)
    ensures
        spec_yahoo_exchange(s) == Some(e) <==> yahoo_codes(e).contains(s),
{
    reveal_strlit("NYQ");
    reveal_strlit("NYE");
    reveal_strlit("NAS");
    reveal_strlit("NMS");
    reveal_strlit("NCM");
    reveal_strlit("NGM");
    reveal_strlit("SHS");
    reveal_strlit("SHH");
    reveal_strlit("SZN");
    reveal_strlit("SHE");
    if s == "NYQ"@ {
        assert("NYQ"@[2] != "NYE"@[2]);
        assert("NYQ"@[1] != "NAS"@[1]);
        assert("NYQ"@[1] != "NMS"@[1]);
        assert("NYQ"@[1] != "NCM"@[1]);
        assert("NYQ"@[1] != "NGM"@[1]);
        assert("NYQ"@[0] != "SHS"@[0]);
        assert("NYQ"@[0] != "SHH"@[0]);
        assert("NYQ"@[0] != "SZN"@[0]);
        assert("NYQ"@[0] != "SHE"@[0]);
    }
    if s == "NYE"@ {
        assert("NYE"@[2] != "NYQ"@[2]);
        assert("NYE"@[1] != "NAS"@[1]);
        assert("NYE"@[1] != "NMS"@[1]);
        assert("NYE"@[1] != "NCM"@[1]);
        assert("NYE"@[1] != "NGM"@[1]);
        assert("NYE"@[0] != "SHS"@[0]);
        assert("NYE"@[0] != "SHH"@[0]);
        assert("NYE"@[0] != "SZN"@[0]);
        assert("NYE"@[0] != "SHE"@[0]);
    }
    if s == "NAS"@ {
        assert("NAS"@[1] != "NYQ"@[1]);
        assert("NAS"@[1] != "NYE"@[1]);
        assert("NAS"@[1] != "NMS"@[1]);
        assert("NAS"@[1] != "NCM"@[1]);
        assert("NAS"@[1] != "NGM"@[1]);
        assert("NAS"@[0] != "SHS"@[0]);
        assert("NAS"@[0] != "SHH"@[0]);
        assert("NAS"@[0] != "SZN"@[0]);
        assert("NAS"@[0] != "SHE"@[0]);
    }
    if s == "NMS"@ {
        assert("NMS"@[1] != "NYQ"@[1]);
        assert("NMS"@[1] != "NYE"@[1]);
        assert("NMS"@[1] != "NAS"@[1]);
        assert("NMS"@[1] != "NCM"@[1]);
        assert("NMS"@[1] != "NGM"@[1]);
        assert("NMS"@[0] != "SHS"@[0]);
        assert("NMS"@[0] != "SHH"@[0]);
        assert("NMS"@[0] != "SZN"@[0]);
        assert("NMS"@[0] != "SHE"@[0]);
    }
    if s == "NCM"@ {
        assert("NCM"@[1] != "NYQ"@[1]);
        assert("NCM"@[1] != "NYE"@[1]);
        assert("NCM"@[1] != "NAS"@[1]);
        assert("NCM"@[1] != "NMS"@[1]);
        assert("NCM"@[1] != "NGM"@[1]);
        assert("NCM"@[0] != "SHS"@[0]);
        assert("NCM"@[0] != "SHH"@[0]);
        assert("NCM"@[0] != "SZN"@[0]);
        assert("NCM"@[0] != "SHE"@[0]);
    }
    if s == "NGM"@ {
        assert("NGM"@[1] != "NYQ"@[1]);
        assert("NGM"@[1] != "NYE"@[1]);
        assert("NGM"@[1] != "NAS"@[1]);
        assert("NGM"@[1] != "NMS"@[1]);
        assert("NGM"@[1] != "NCM"@[1]);
        assert("NGM"@[0] != "SHS"@[0]);
        assert("NGM"@[0] != "SHH"@[0]);
        assert("NGM"@[0] != "SZN"@[0]);
        assert("NGM"@[0] != "SHE"@[0]);
    }
    if s == "SHS"@ {
        assert("SHS"@[0] != "NYQ"@[0]);
        assert("SHS"@[0] != "NYE"@[0]);
        assert("SHS"@[0] != "NAS"@[0]);
        assert("SHS"@[0] != "NMS"@[0]);
        assert("SHS"@[0] != "NCM"@[0]);
        assert("SHS"@[0] != "NGM"@[0]);
        assert("SHS"@[2] != "SHH"@[2]);
        assert("SHS"@[1] != "SZN"@[1]);
        assert("SHS"@[2] != "SHE"@[2]);
    }
    if s == "SHH"@ {
        assert("SHH"@[0] != "NYQ"@[0]);
        assert("SHH"@[0] != "NYE"@[0]);
        assert("SHH"@[0] != "NAS"@[0]);
        assert("SHH"@[0] != "NMS"@[0]);
        assert("SHH"@[0] != "NCM"@[0]);
        assert("SHH"@[0] != "NGM"@[0]);
        assert("SHH"@[2] != "SHS"@[2]);
        assert("SHH"@[1] != "SZN"@[1]);
        assert("SHH"@[2] != "SHE"@[2]);
    }
    if s == "SZN"@ {
        assert("SZN"@[0] != "NYQ"@[0]);
        assert("SZN"@[0] != "NYE"@[0]);
        assert("SZN"@[0] != "NAS"@[0]);
        assert("SZN"@[0] != "NMS"@[0]);
        assert("SZN"@[0] != "NCM"@[0]);
        assert("SZN"@[0] != "NGM"@[0]);
        assert("SZN"@[1] != "SHS"@[1]);
        assert("SZN"@[1] != "SHH"@[1]);
        assert("SZN"@[1] != "SHE"@[1]);
    }
    if s == "SHE"@ {
        assert("SHE"@[0] != "NYQ"@[0]);
        assert("SHE"@[0] != "NYE"@[0]);
        assert("SHE"@[0] != "NAS"@[0]);
        assert("SHE"@[0] != "NMS"@[0]);
        assert("SHE"@[0] != "NCM"@[0]);
        assert("SHE"@[0] != "NGM"@[0]);
        assert("SHE"@[2] != "SHS"@[2]);
        assert("SHE"@[2] != "SHH"@[2]);
        assert("SHE"@[1] != "SZN"@[1]);
    }
}

/// Yahoo Finance's source of US daily bars and of stock search.
pub struct YahooSource;

impl YahooSource {
    /// The suffix that Yahoo puts after a code; none for the markets followed.
    pub fn yahoo_suffix(exchange: &Exchange) -> (r: &'static str)
        ensures
            r@ == ""@,
    {
        ""
    }

    pub fn chart_url(code: &str, exchange: &Exchange, range: &str, interval: &str) -> (r: String)
        ensures
            r@ == spec_chart_url(code@, range@, interval@),
    {
        let mut ticker = String::from_str(code);
        ticker.append(Self::yahoo_suffix(exchange));
        let mut r = String::from_str("https://query1.finance.yahoo.com/v8/finance/chart/");
        r.append(ticker.as_str());
        r.append("?range=");
        r.append(range);
        r.append("&interval=");
        r.append(interval);
        r.append("&includePrePost=false");
        proof {
            reveal_strlit("");
        }
        assert(ticker@ =~= code@);
        r
    }

    pub fn yahoo_range(period: KlinePeriod) -> (r: &'static str)
        ensures
            r@ == spec_yahoo_range(period),
    {
        match period {
            KlinePeriod::Daily => "2y",
            KlinePeriod::Weekly => "5y",
            KlinePeriod::Monthly => "10y",
            KlinePeriod::Yearly => "max",
        }
    }

    pub fn yahoo_interval(period: KlinePeriod) -> (r: &'static str)
        ensures
            r@ == spec_yahoo_interval(period),
    {
        match period {
            KlinePeriod::Daily => "1d",
            KlinePeriod::Weekly => "1wk",
            KlinePeriod::Monthly => "1mo",
            KlinePeriod::Yearly => "3mo",
        }
    }

    /// The URL of a Yahoo search; the keyword goes in as it is.
    pub fn search_url(keyword: &str) -> (r: String)
        ensures
            r@ == "https://query1.finance.yahoo.com/v1/finance/search?q="@ + keyword@
                + "&quotesCount=10&newsCount=0"@,
    {
        let mut r = String::from_str("https://query1.finance.yahoo.com/v1/finance/search?q=");
        r.append(keyword);
        r.append("&quotesCount=10&newsCount=0");
        r
    }

    /// The exchange of a Yahoo exchange code.
    pub fn yahoo_exchange(s: &str) -> (r: Option<Exchange>)
        ensures
            r == spec_yahoo_exchange(s@),
    {
        if str_eq(s, "NYQ") || str_eq(s, "NYE") {
            Some(Exchange::NYSE)
        } else if str_eq(s, "NAS") || str_eq(s, "NMS") || str_eq(s, "NCM") || str_eq(s, "NGM") {
            Some(Exchange::NASDAQ)
        } else if str_eq(s, "SHS") || str_eq(s, "SHH") {
            Some(Exchange::SH)
        } else if str_eq(s, "SZN") || str_eq(s, "SHE") {
            Some(Exchange::SZ)
        } else {
            None
        }
    }

    /// The stock of one Yahoo search quote: named by its short name, else
    /// its long name, else its symbol; none when its exchange is not followed.
    pub fn quote_stock(symbol: &str, short_name: Option<&str>, long_name: Option<&str>, exchange: &str) -> (r: Option<Stock>)
        ensures
            match spec_yahoo_exchange(exchange@) {
                None => r is None,
                Some(e) => r matches Some(s) && s.code@ == symbol@ && s.exchange == e
                    && s.name@ == (match (short_name, long_name) {
                        (Some(n), _) => n@,
                        (None, Some(n)) => n@,
                        (None, None) => symbol@,
                    }) && s.sector is None && s.industry is None && s.list_date is None
                    && s.total_shares is None && s.float_shares is None,
            },
    {
        let e = match Self::yahoo_exchange(exchange) {
            Some(e) => e,
            None => return None,
        };
        // Only US and mainland markets are followed.
        if !e.is_us() && !(e == Exchange::SH || e == Exchange::SZ) {
            return None;
        }
        let name = match (short_name, long_name) {
            (Some(n), _) => n,
            (None, Some(n)) => n,
            (None, None) => symbol,
        };
        Some(Stock::basic(String::from_str(symbol), String::from_str(name), e))
    }
}

// ───────────── EastMoney ─────────────

/// One entry of an EastMoney search answer.
#[derive(Debug, Clone)]
pub struct SearchItem {
    pub code: String,
    pub name: String,
    /// The exchange code: "2" for Shanghai, "6" for Shenzhen.
    pub jys: String,
    pub sec_type: Option<String>,
}

/// The stock of an EastMoney search entry: only Shanghai ("2") and
/// Shenzhen ("6") entries are kept.
pub open spec fn search_item_stock(item: SearchItem) -> Option<Stock> {
    if item.jys@ == "2"@ {
        Some(Stock {
            code: item.code,
            name: item.name,
            exchange: Exchange::SH,
            sector: None,
            industry: None,
            list_date: None,
            total_shares: None,
            float_shares: None,
        })
    } else if item.jys@ == "6"@ {
        Some(Stock {
            code: item.code,
            name: item.name,
            exchange: Exchange::SZ,
            sector: None,
            industry: None,
            list_date: None,
            total_shares: None,
            float_shares: None,
        })
    } else {
        None
    }
}

/// The stocks of an EastMoney search answer, in the answer's order.
pub open spec fn search_stocks_of(items: Seq<SearchItem>) -> Seq<Stock> {
    items.filter_map(|i: SearchItem| search_item_stock(i))
}

/// EastMoney's source of stock search.
pub struct EastMoneySource;

impl EastMoneySource {
    /// Percent-encodes a keyword for the search URL.
    pub fn url_encode(s: &str) -> (r: String)
        ensures
            r@ == percent_encoded(s.spec_bytes()),
    {
        url_encode(s)
    }

    /// The URL of an EastMoney search.
    pub fn search_url(keyword: &str) -> (r: String)
        ensures
            r@ == "https://searchadapter.eastmoney.com/api/suggest/get?input="@ + percent_encoded(
                keyword.spec_bytes(),
            ) + "&count=20&type=14"@,
    {
        let mut r = String::from_str("https://searchadapter.eastmoney.com/api/suggest/get?input=");
        let k = url_encode(keyword);
        r.append(k.as_str());
        r.append("&count=20&type=14");
        r
    }

    /// The A-share stocks of a search answer.
    pub fn stocks_from_search(items: &Vec<SearchItem>) -> (r: Vec<Stock>)
        ensures
            r@ == search_stocks_of(items@),
    {
        let mut r: Vec<Stock> = Vec::new();
        let n = items.len();
        let mut i: usize = 0;
        while i < n
            invariant
                n == items@.len(),
                i <= n,
                r@ == search_stocks_of(items@.take(i as int)),
            decreases n - i,
        {
            let item = &items[i];
            let found = if str_eq(item.jys.as_str(), "2") {
                Some(Stock::basic(item.code.clone(), item.name.clone(), Exchange::SH))
            } else if str_eq(item.jys.as_str(), "6") {
                Some(Stock::basic(item.code.clone(), item.name.clone(), Exchange::SZ))
            } else {
                None
            };
            proof {
                reveal_strlit("2");
                reveal_strlit("6");
                assert(items@.take(i + 1).drop_last() =~= items@.take(i as int));
                assert(items@.take(i + 1).last() == items@[i as int]);
            }
            match found {
                Some(s) => {
                    r.push(s);
                },
                None => {},
            }
            assert(r@ =~= search_stocks_of(items@.take(i + 1)));
            i = i + 1;
        }
        assert(items@.take(n as int) =~= items@);
        r
    }
}

// ───────────── Finnhub ─────────────

/// The credentials that a Finnhub client is made with.
#[derive(Debug, Clone)]
pub struct FinnhubClient {
    pub api_key: String,
}

/// Whether an API key enables Finnhub: it must be non-empty and not the
/// placeholder "your_key_here".
pub open spec fn enables_finnhub(key: Seq<char>) -> bool {
    key.len() > 0 && key != "your_key_here"@
}

/// The exchange of a Finnhub exchange code.
pub open spec fn spec_finnhub_exchange(s: Seq<char>) -> Option<Exchange> {
    if s == "NYSE"@ || s == "NYQ"@ || s == "NYE"@ {
        Some(Exchange::NYSE)
    } else if s == "NASDAQ"@ || s == "NAS"@ || s == "NMS"@ || s == "NCM"@ {
        Some(Exchange::NASDAQ)
    } else if s == "SS"@ || s == "SHH"@ {
        Some(Exchange::SH)
    } else if s == "SZ"@ || s == "SZN"@ || s == "SHE"@ {
        Some(Exchange::SZ)
    } else {
        None
    }
}

/// The Finnhub exchange codes of each followed market: NYSE is "NYSE",
/// "NYQ" and "NYE"; NASDAQ is "NASDAQ", "NAS", "NMS" and "NCM"; Shanghai is
/// "SS" and "SHH"; Shenzhen is "SZ", "SZN" and "SHE". Beijing has none.
pub open spec fn finnhub_codes(e: Exchange) -> Set<Seq<char>> {
    match e {
        Exchange::NYSE => set!["NYSE"@, "NYQ"@, "NYE"@],
        Exchange::NASDAQ => set!["NASDAQ"@, "NAS"@, "NMS"@, "NCM"@],
        Exchange::SH => set!["SS"@, "SHH"@],
        Exchange::SZ => set!["SZ"@, "SZN"@, "SHE"@],
        Exchange::BJ => Set::empty(),
    }
}

/// A Finnhub code names an exchange exactly when it is one of that
/// exchange's codes; any other code names none.
pub proof fn lemma_finnhub_codes(s: Seq<char>, e: Exchange)
    ensures
        spec_finnhub_exchange(s) == Some(e) <==> finnhub_codes(e).contains(s),
{
    reveal_strlit("NYSE");
    reveal_strlit("NYQ");
    reveal_strlit("NYE");
    reveal_strlit("NASDAQ");
    reveal_strlit("NAS");
    reveal_strlit("NMS");
    reveal_strlit("NCM");
    reveal_strlit("SS");
    reveal_strlit("SHH");
    reveal_strlit("SZ");
    reveal_strlit("SZN");
    reveal_strlit("SHE");
    if s == "NYSE"@ {
        assert("NYSE"@.len() != "NYQ"@.len());
        assert("NYSE"@.len() != "NYE"@.len());
        assert("NYSE"@.len() != "NASDAQ"@.len());
        assert("NYSE"@.len() != "NAS"@.len());
        assert("NYSE"@.len() != "NMS"@.len());
        assert("NYSE"@.len() != "NCM"@.len());
        assert("NYSE"@.len() != "SS"@.len());
        assert("NYSE"@.len() != "SHH"@.len());
        assert("NYSE"@.len() != "SZ"@.len());
        assert("NYSE"@.len() != "SZN"@.len());
        assert("NYSE"@.len() != "SHE"@.len());
    }
    if s == "NYQ"@ {
        assert("NYQ"@.len() != "NYSE"@.len());
        assert("NYQ"@[2] != "NYE"@[2]);
        assert("NYQ"@.len() != "NASDAQ"@.len());
        assert("NYQ"@[1] != "NAS"@[1]);
        assert("NYQ"@[1] != "NMS"@[1]);
        assert("NYQ"@[1] != "NCM"@[1]);
        assert("NYQ"@.len() != "SS"@.len());
        assert("NYQ"@[0] != "SHH"@[0]);
        assert("NYQ"@.len() != "SZ"@.len());
        assert("NYQ"@[0] != "SZN"@[0]);
        assert("NYQ"@[0] != "SHE"@[0]);
    }
    if s == "NYE"@ {
        assert("NYE"@.len() != "NYSE"@.len());
        assert("NYE"@[2] != "NYQ"@[2]);
        assert("NYE"@.len() != "NASDAQ"@.len());
        assert("NYE"@[1] != "NAS"@[1]);
        assert("NYE"@[1] != "NMS"@[1]);
        assert("NYE"@[1] != "NCM"@[1]);
        assert("NYE"@.len() != "SS"@.len());
        assert("NYE"@[0] != "SHH"@[0]);
        assert("NYE"@.len() != "SZ"@.len());
        assert("NYE"@[0] != "SZN"@[0]);
        assert("NYE"@[0] != "SHE"@[0]);
    }
    if s == "NASDAQ"@ {
        assert("NASDAQ"@.len() != "NYSE"@.len());
        assert("NASDAQ"@.len() != "NYQ"@.len());
        assert("NASDAQ"@.len() != "NYE"@.len());
        assert("NASDAQ"@.len() != "NAS"@.len());
        assert("NASDAQ"@.len() != "NMS"@.len());
        assert("NASDAQ"@.len() != "NCM"@.len());
        assert("NASDAQ"@.len() != "SS"@.len());
        assert("NASDAQ"@.len() != "SHH"@.len());
        assert("NASDAQ"@.len() != "SZ"@.len());
        assert("NASDAQ"@.len() != "SZN"@.len());
        assert("NASDAQ"@.len() != "SHE"@.len());
    }
    if s == "NAS"@ {
        assert("NAS"@.len() != "NYSE"@.len());
        assert("NAS"@[1] != "NYQ"@[1]);
        assert("NAS"@[1] != "NYE"@[1]);
        assert("NAS"@.len() != "NASDAQ"@.len());
        assert("NAS"@[1] != "NMS"@[1]);
        assert("NAS"@[1] != "NCM"@[1]);
        assert("NAS"@.len() != "SS"@.len());
        assert("NAS"@[0] != "SHH"@[0]);
        assert("NAS"@.len() != "SZ"@.len());
        assert("NAS"@[0] != "SZN"@[0]);
        assert("NAS"@[0] != "SHE"@[0]);
    }
    if s == "NMS"@ {
        assert("NMS"@.len() != "NYSE"@.len());
        assert("NMS"@[1] != "NYQ"@[1]);
        assert("NMS"@[1] != "NYE"@[1]);
        assert("NMS"@.len() != "NASDAQ"@.len());
        assert("NMS"@[1] != "NAS"@[1]);
        assert("NMS"@[1] != "NCM"@[1]);
        assert("NMS"@.len() != "SS"@.len());
        assert("NMS"@[0] != "SHH"@[0]);
        assert("NMS"@.len() != "SZ"@.len());
        assert("NMS"@[0] != "SZN"@[0]);
        assert("NMS"@[0] != "SHE"@[0]);
    }
    if s == "NCM"@ {
        assert("NCM"@.len() != "NYSE"@.len());
        assert("NCM"@[1] != "NYQ"@[1]);
        assert("NCM"@[1] != "NYE"@[1]);
        assert("NCM"@.len() != "NASDAQ"@.len());
        assert("NCM"@[1] != "NAS"@[1]);
        assert("NCM"@[1] != "NMS"@[1]);
        assert("NCM"@.len() != "SS"@.len());
        assert("NCM"@[0] != "SHH"@[0]);
        assert("NCM"@.len() != "SZ"@.len());
        assert("NCM"@[0] != "SZN"@[0]);
        assert("NCM"@[0] != "SHE"@[0]);
    }
    if s == "SS"@ {
        assert("SS"@.len() != "NYSE"@.len());
        assert("SS"@.len() != "NYQ"@.len());
        assert("SS"@.len() != "NYE"@.len());
        assert("SS"@.len() != "NASDAQ"@.len());
        assert("SS"@.len() != "NAS"@.len());
        assert("SS"@.len() != "NMS"@.len());
        assert("SS"@.len() != "NCM"@.len());
        assert("SS"@.len() != "SHH"@.len());
        assert("SS"@[1] != "SZ"@[1]);
        assert("SS"@.len() != "SZN"@.len());
        assert("SS"@.len() != "SHE"@.len());
    }
    if s == "SHH"@ {
        assert("SHH"@.len() != "NYSE"@.len());
        assert("SHH"@[0] != "NYQ"@[0]);
        assert("SHH"@[0] != "NYE"@[0]);
        assert("SHH"@.len() != "NASDAQ"@.len());
        assert("SHH"@[0] != "NAS"@[0]);
        assert("SHH"@[0] != "NMS"@[0]);
        assert("SHH"@[0] != "NCM"@[0]);
        assert("SHH"@.len() != "SS"@.len());
        assert("SHH"@.len() != "SZ"@.len());
        assert("SHH"@[1] != "SZN"@[1]);
        assert("SHH"@[2] != "SHE"@[2]);
    }
    if s == "SZ"@ {
        assert("SZ"@.len() != "NYSE"@.len());
        assert("SZ"@.len() != "NYQ"@.len());
        assert("SZ"@.len() != "NYE"@.len());
        assert("SZ"@.len() != "NASDAQ"@.len());
        assert("SZ"@.len() != "NAS"@.len());
        assert("SZ"@.len() != "NMS"@.len());
        assert("SZ"@.len() != "NCM"@.len());
        assert("SZ"@[1] != "SS"@[1]);
        assert("SZ"@.len() != "SHH"@.len());
        assert("SZ"@.len() != "SZN"@.len());
        assert("SZ"@.len() != "SHE"@.len());
    }
    if s == "SZN"@ {
        assert("SZN"@.len() != "NYSE"@.len());
        assert("SZN"@[0] != "NYQ"@[0]);
        assert("SZN"@[0] != "NYE"@[0]);
        assert("SZN"@.len() != "NASDAQ"@.len());
        assert("SZN"@[0] != "NAS"@[0]);
        assert("SZN"@[0] != "NMS"@[0]);
        assert("SZN"@[0] != "NCM"@[0]);
        assert("SZN"@.len() != "SS"@.len());
        assert("SZN"@[1] != "SHH"@[1]);
        assert("SZN"@.len() != "SZ"@.len());
        assert("SZN"@[1] != "SHE"@[1]);
    }
    if s == "SHE"@ {
        assert("SHE"@.len() != "NYSE"@.len());
        assert("SHE"@[0] != "NYQ"@[0]);
        assert("SHE"@[0] != "NYE"@[0]);
        assert("SHE"@.len() != "NASDAQ"@.len());
        assert("SHE"@[0] != "NAS"@[0]);
        assert("SHE"@[0] != "NMS"@[0]);
        assert("SHE"@[0] != "NCM"@[0]);
        assert("SHE"@.len() != "SS"@.len());
        assert("SHE"@[2] != "SHH"@[2]);
        assert("SHE"@.len() != "SZ"@.len());
        assert("SHE"@[1] != "SZN"@[1]);
    }
}

/// One entry of a Finnhub symbol search.
#[derive(Debug, Clone)]
pub struct SymbolItem {
    pub symbol: String,
    pub description: String,
    pub security_type: String,
}

/// The stock of a Finnhub search entry, whose exchange is read from its
/// security type; none when that is not a followed exchange.
pub open spec fn symbol_item_stock(item: SymbolItem) -> Option<Stock> {
    match spec_finnhub_exchange(item.security_type@) {
        Some(e) => Some(Stock {
            code: item.symbol,
            name: item.description,
            exchange: e,
            sector: None,
            industry: None,
            list_date: None,
            total_shares: None,
            float_shares: None,
        }),
        None => None,
    }
}

/// Finnhub's source of US data; enabled by an API key.
pub struct FinnhubSource {
    client: Option<FinnhubClient>,
}

impl FinnhubSource {
    /// The client that this source uses, if any.
    pub closed spec fn spec_client(&self) -> Option<FinnhubClient> {
        self.client
    }

    /// Makes the source from the `FINNHUB_API_KEY` setting, if there is one:
    /// enabled exactly when the key is usable.
    pub fn new(api_key: Option<String>) -> (r: FinnhubSource)
        ensures
            match api_key {
                Some(k) => if enables_finnhub(k@) {
                    r.spec_client() == Some(FinnhubClient { api_key: k })
                } else {
                    r.spec_client() is None
                },
                None => r.spec_client() is None,
            },
    {
        let client = match api_key {
            Some(key) => {
                if key.unicode_len() > 0 && !str_eq(key.as_str(), "your_key_here") {
                    Some(FinnhubClient { api_key: key })
                } else {
                    None
                }
            },
            None => None,
        };
        FinnhubSource { client }
    }

    /// Whether Finnhub is available (an API key is configured).
    pub fn is_available(&self) -> (r: bool)
        ensures
            r == self.spec_client() is Some,
    {
        self.client.is_some()
    }

    /// The Finnhub client, or the message that no API key is configured.
    pub fn c(&self) -> (r: Result<&FinnhubClient, String>)
        ensures
            match self.spec_client() {
                Some(cl) => r == Ok::<&FinnhubClient, String>(&cl),
                None => r matches Err(m) && m@ == "Finnhub API key not configured"@,
            },
    {
        match &self.client {
            Some(cl) => Ok(cl),
            None => Err(String::from_str("Finnhub API key not configured")),
        }
    }

    /// Maps Finnhub exchange codes onto exchanges.
    pub fn map_exchange(exchange_str: &str) -> (r: Option<Exchange>)
        ensures
            r == spec_finnhub_exchange(exchange_str@),
    {
        let s = exchange_str;
        if str_eq(s, "NYSE") || str_eq(s, "NYQ") || str_eq(s, "NYE") {
            Some(Exchange::NYSE)
        } else if str_eq(s, "NASDAQ") || str_eq(s, "NAS") || str_eq(s, "NMS") || str_eq(s, "NCM") {
            Some(Exchange::NASDAQ)
        } else if str_eq(s, "SS") || str_eq(s, "SHH") {
            Some(Exchange::SH)
        } else if str_eq(s, "SZ") || str_eq(s, "SZN") || str_eq(s, "SHE") {
            Some(Exchange::SZ)
        } else {
            None
        }
    }

    /// The stocks of a symbol search, in order, without those of exchanges
    /// that are not followed.
    pub fn stocks_from_symbols(items: &Vec<SymbolItem>) -> (r: Vec<Stock>)
        ensures
            r@ == items@.filter_map(|i: SymbolItem| symbol_item_stock(i)),
    {
        let mut r: Vec<Stock> = Vec::new();
        let n = items.len();
        let mut i: usize = 0;
        while i < n
            invariant
                n == items@.len(),
                i <= n,
                r@ == items@.take(i as int).filter_map(|i: SymbolItem| symbol_item_stock(i)),
            decreases n - i,
        {
            let item = &items[i];
            let found = match Self::map_exchange(item.security_type.as_str()) {
                Some(e) => Some(Stock::basic(item.symbol.clone(), item.description.clone(), e)),
                None => None,
            };
            proof {
                assert(items@.take(i + 1).drop_last() =~= items@.take(i as int));
                assert(items@.take(i + 1).last() == items@[i as int]);
            }
            match found {
                Some(s) => {
                    r.push(s);
                },
                None => {},
            }
            assert(r@ =~= items@.take(i + 1).filter_map(|i: SymbolItem| symbol_item_stock(i)));
            i = i + 1;
        }
        assert(items@.take(n as int) =~= items@);
        r
    }
}

// ───────────── Mock ─────────────

/// A source of fixed sample data.
pub struct MockSource;

impl MockSource {
    /// The one sample stock that every search finds: Shenzhen "000001",
    /// named "Mock" followed by the keyword, a bank.
    pub fn search_stocks(&self, keyword: &str) -> (r: Vec<Stock>)
        ensures
            r@.len() == 1,
            r@[0].code@ == "000001"@,
            r@[0].name@ == "Mock"@ + keyword@,
            r@[0].exchange == Exchange::SZ,
            r@[0].sector matches Some(s) && s@ == "银行"@,
            r@[0].industry matches Some(s) && s@ == "银行"@,
            r@[0].list_date is None,
            r@[0].total_shares == Some(100_000_000_000u64),
            r@[0].float_shares == Some(80_000_000_000u64),
    {
        let mut name = String::from_str("Mock");
        name.append(keyword);
        let mut r: Vec<Stock> = Vec::new();
        r.push(Stock {
            code: String::from_str("000001"),
            name,
            exchange: Exchange::SZ,
            sector: Some(String::from_str("银行")),
            industry: Some(String::from_str("银行")),
            list_date: None,
            total_shares: Some(100_000_000_000u64),
            float_shares: Some(80_000_000_000u64),
        });
        r
    }
}

// ───────────── Fallback ─────────────

/// The progress of a fallback through its sources: the error of the last
/// source that failed, forgotten when a later source answers with no data.
pub struct Fallback<E> {
    pub last_err: Option<E>,
}

/// One step of the fallback: the answer to return, if this outcome ends
/// the search, and the error remembered otherwise.
pub open spec fn fallback_step<T, E>(last_err: Option<E>, outcome: Result<Seq<T>, E>) -> (Option<Seq<T>>, Option<E>) {
    match outcome {
        Ok(d) => if d.len() > 0 {
            (Some(d), last_err)
        } else {
            (None, None)
        },
        Err(e) => (None, Some(e)),
    }
}

/// The result of trying sources with these outcomes in order, starting
/// with `last_err` remembered: the first non-empty data, or else the
/// error remembered at the end (none when no error is left to report).
pub open spec fn fallback_run<T, E>(last_err: Option<E>, outcomes: Seq<Result<Seq<T>, E>>) -> Result<Seq<T>, Option<E>>
    decreases outcomes.len(),
{
    if outcomes.len() == 0 {
        Err(last_err)
    } else {
        let (done, err) = fallback_step(last_err, outcomes[0]);
        match done {
            Some(d) => Ok(d),
            None => fallback_run(err, outcomes.drop_first()),
        }
    }
}

impl<E> Fallback<E> {
    pub fn new() -> (r: Fallback<E>)
        ensures
            r.last_err is None,
    {
        Fallback { last_err: None }
    }

    /// Takes in a source's answer: non-empty data ends the search and is
    /// returned; an empty answer forgets the last error; an error is remembered.
    pub fn observe<T>(&mut self, outcome: Result<Vec<T>, E>) -> (r: Option<Vec<T>>)
        ensures
            ({
                let (done, err) = fallback_step(
                    old(self).last_err,
                    match outcome {
                        Ok(d) => Ok(d@),
                        Err(e) => Err(e),
                    },
                );
                &&& final(self).last_err == err
                &&& match r {
                    Some(v) => done == Some(v@) && (outcome matches Ok(d) && v == d),
                    None => done is None,
                }
            }),
    {
        match outcome {
            Ok(data) => {
                if data.len() > 0 {
                    Some(data)
                } else {
                    self.last_err = None;
                    None
                }
            },
            Err(e) => {
                self.last_err = Some(e);
                None
            },
        }
    }

    /// Takes in a source's answer where any successful answer ends the
    /// search (valuation ratios): success is returned, an error remembered.
    pub fn observe_any<T>(&mut self, outcome: Result<T, E>) -> (r: Option<T>)
        ensures
            match outcome {
                Ok(d) => r == Some(d) && final(self).last_err == old(self).last_err,
                Err(e) => r is None && final(self).last_err == Some(e),
            },
    {
        match outcome {
            Ok(data) => Some(data),
            Err(e) => {
                self.last_err = Some(e);
                None
            },
        }
    }

    /// The error to report once every source has been tried; there must be
    /// one (when none is left, the caller gives up with a panic).
    pub fn finish(self) -> (r: E)
        requires
            self.last_err is Some,
        ensures
            Some(r) == self.last_err,
    {
        self.last_err.unwrap()
    }
}

/// Whether a source answered with data.
pub open spec fn has_data<T, E>(o: Result<Seq<T>, E>) -> bool {
    o matches Ok(d) && d.len() > 0
}

/// The fallback returns the data of the first source that answers with
/// data, whatever the sources before it answered.
pub proof fn lemma_fallback_first_data<T, E>(start: Option<E>, outcomes: Seq<Result<Seq<T>, E>>, i: int)
    requires
        0 <= i < outcomes.len(),
        has_data(outcomes[i]),
        forall|j: int| 0 <= j < i ==> !has_data(#[trigger] outcomes[j]),
    ensures
        fallback_run(start, outcomes) == Ok::<Seq<T>, Option<E>>(outcomes[i]->Ok_0),
    decreases i,
{
    if i > 0 {
        let (done, err) = fallback_step(start, outcomes[0]);
        assert(done is None);
        let rest = outcomes.drop_first();
        assert forall|j: int| 0 <= j < i - 1 implies !has_data(#[trigger] rest[j]) by {
            assert(rest[j] == outcomes[j + 1]);
        }
        lemma_fallback_first_data(err, rest, i - 1);
    }
}

/// When no source has data and the last source failed, the fallback
/// reports that source's error.
pub proof fn lemma_fallback_last_error<T, E>(start: Option<E>, outcomes: Seq<Result<Seq<T>, E>>)
    requires
        outcomes.len() > 0,
        outcomes.last() is Err,
        forall|j: int| 0 <= j < outcomes.len() ==> !has_data(#[trigger] outcomes[j]),
    ensures
        fallback_run(start, outcomes) == Err::<Seq<T>, Option<E>>(Some(outcomes.last()->Err_0)),
    decreases outcomes.len(),
{
    let (done, err) = fallback_step(start, outcomes[0]);
    let rest = outcomes.drop_first();
    assert(!has_data(outcomes[0]));
    assert(done is None);
    if outcomes.len() > 1 {
        assert forall|j: int| 0 <= j < rest.len() implies !has_data(#[trigger] rest[j]) by {
            assert(rest[j] == outcomes[j + 1]);
        }
        assert(rest.last() == outcomes.last());
        lemma_fallback_last_error(err, rest);
    } else {
        assert(rest.len() == 0);
        assert(outcomes[0] == outcomes.last());
        assert(fallback_run(err, rest) == Err::<Seq<T>, Option<E>>(err));
    }
}

/// When no source has data and the last one answers with no data (rather
/// than an error), there is no error left to report: earlier errors are
/// forgotten.
pub proof fn lemma_fallback_empty_last<T, E>(start: Option<E>, outcomes: Seq<Result<Seq<T>, E>>)
    requires
        outcomes.len() > 0,
        outcomes.last() is Ok,
        forall|j: int| 0 <= j < outcomes.len() ==> !has_data(#[trigger] outcomes[j]),
    ensures
        fallback_run(start, outcomes) == Err::<Seq<T>, Option<E>>(None),
    decreases outcomes.len(),
{
    let (done, err) = fallback_step(start, outcomes[0]);
    let rest = outcomes.drop_first();
    assert(!has_data(outcomes[0]));
    if outcomes.len() > 1 {
        assert forall|j: int| 0 <= j < rest.len() implies !has_data(#[trigger] rest[j]) by {
            assert(rest[j] == outcomes[j + 1]);
        }
        assert(rest.last() == outcomes.last());
        lemma_fallback_empty_last(err, rest);
    } else {
        assert(outcomes[0] == outcomes.last());
        assert(fallback_run(err, rest) == Err::<Seq<T>, Option<E>>(err));
    }
}

// ───────────── Cache ─────────────

/// The fewest cached daily bars that are used without asking a source.
pub const CACHE_MIN_BARS: usize = 100;

/// Whether the cached daily bars of a stock are enough to use as they are.
pub fn use_cached_bars(cached: usize) -> (r: bool)
    ensures
        r == (cached >= CACHE_MIN_BARS),
{
    cached >= CACHE_MIN_BARS
}

/// An EastMoney search gives A-share stocks only: each is listed in
/// Shanghai or Shenzhen.
pub proof fn lemma_search_gives_a_shares(items: Seq<SearchItem>)
    ensures
        forall|i: int|
            0 <= i < search_stocks_of(items).len() ==> (#[trigger] search_stocks_of(items)[i]).exchange
                == Exchange::SH || search_stocks_of(items)[i].exchange == Exchange::SZ,
    decreases items.len(),
{
    if items.len() > 0 {
        let rest = items.drop_last();
        lemma_search_gives_a_shares(rest);
        let f = |i: SearchItem| search_item_stock(i);
        assert(search_stocks_of(items) == items.filter_map(f));
        assert(search_stocks_of(rest) == rest.filter_map(f));
        let out = search_stocks_of(items);
        assert forall|i: int| 0 <= i < out.len() implies (#[trigger] out[i]).exchange == Exchange::SH
            || out[i].exchange == Exchange::SZ by {
            if i < search_stocks_of(rest).len() {
                assert(out[i] == search_stocks_of(rest)[i]);
            }
        }
    }
}

} // verus!
