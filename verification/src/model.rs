//! Domain model: exchanges, report kinds, periods, stocks and watchlists.

use vstd::prelude::*;
use vstd::string::*;

verus! {

/// A stock exchange.
#[derive(Debug, Clone, Copy, PartialEq, Eq, Structural)]
pub enum Exchange {
    /// Shenzhen
    SZ,
    /// Shanghai
    SH,
    /// Beijing
    BJ,
    /// New York Stock Exchange
    NYSE,
    /// NASDAQ
    NASDAQ,
}

/// The text of each exchange's prefix.
pub open spec fn exchange_prefix(e: Exchange) -> Seq<char> {
    match e {
        Exchange::SZ => "SZ"@,
        Exchange::SH => "SH"@,
        Exchange::BJ => "BJ"@,
        Exchange::NYSE => "NYSE"@,
        Exchange::NASDAQ => "NASDAQ"@,
    }
}

/// The exchange that a stored exchange name is read back as: each
/// exchange's prefix names that exchange; any other name is read as Shenzhen.
pub open spec fn exchange_from_stored(s: Seq<char>) -> Exchange {
    if s == "SH"@ {
        Exchange::SH
    } else if s == "BJ"@ {
        Exchange::BJ
    } else if s == "NYSE"@ {
        Exchange::NYSE
    } else if s == "NASDAQ"@ {
        Exchange::NASDAQ
    } else {
        Exchange::SZ
    }
}

impl Exchange {
    /// The short prefix shown before a stock code, e.g. "SZ".
    pub fn prefix(&self) -> (r: &'static str)
        ensures
            r@ == exchange_prefix(*self),
    {
        match self {
            Exchange::SZ => "SZ",
            Exchange::SH => "SH",
            Exchange::BJ => "BJ",
            Exchange::NYSE => "NYSE",
            Exchange::NASDAQ => "NASDAQ",
        }
    }

    /// Whether this is a US exchange.
    pub fn is_us(&self) -> (r: bool)
        ensures
            r == (*self == Exchange::NYSE || *self == Exchange::NASDAQ),
    {
        match self {
            Exchange::NYSE | Exchange::NASDAQ => true,
            _ => false,
        }
    }

    /// Reads an exchange back from the name it was stored under.
    pub fn from_stored(s: &str) -> (r: Exchange)
        ensures
            r == exchange_from_stored(s@),
    {
        if str_eq(s, "SH") {
            Exchange::SH
        } else if str_eq(s, "BJ") {
            Exchange::BJ
        } else if str_eq(s, "NYSE") {
            Exchange::NYSE
        } else if str_eq(s, "NASDAQ") {
            Exchange::NASDAQ
        } else {
            Exchange::SZ
        }
    }
}

/// Whether two string slices hold the same characters.
pub fn str_eq(a: &str, b: &str) -> (r: bool)
    ensures
        r == (a@ == b@),
{
    let n = a.unicode_len();
    if n != b.unicode_len() {
        return false;
    }
    let mut i: usize = 0;
    while i < n
        invariant
            n == a@.len(),
            n == b@.len(),
            i <= n,
            forall|j: int| 0 <= j < i ==> a@[j] == b@[j],
        decreases n - i,
    {
        if a.get_char(i) != b.get_char(i) {
            return false;
        }
        i = i + 1;
    }
    assert(a@ =~= b@);
    true
}

/// The kind of a financial report.
#[derive(Debug, Clone, Copy, PartialEq, Eq, Structural)]
pub enum ReportType {
    /// First-quarter report
    Q1,
    /// Half-year report
    Mid,
    /// Third-quarter report
    Q3,
    /// Annual report
    Annual,
}

/// The report kind that a report ending in `month` is taken to be.
pub open spec fn report_type_of_month(month: u32) -> ReportType {
    if 1 <= month <= 3 {
        ReportType::Q1
    } else if 4 <= month <= 6 {
        ReportType::Mid
    } else if 7 <= month <= 9 {
        ReportType::Q3
    } else {
        ReportType::Annual
    }
}

impl ReportType {
    /// Classifies a report by the month in which its period ends.
    pub fn for_month(month: u32) -> (r: ReportType)
        ensures
            r == report_type_of_month(month),
    {
        if 1 <= month && month <= 3 {
            ReportType::Q1
        } else if 4 <= month && month <= 6 {
            ReportType::Mid
        } else if 7 <= month && month <= 9 {
            ReportType::Q3
        } else {
            ReportType::Annual
        }
    }
}

/// Intraday bar granularity.
#[derive(Debug, Clone, Copy, PartialEq, Eq, Structural)]
pub enum IntradayPeriod {
    Min1,
    Min5,
    Min15,
    Min30,
    Min60,
}

/// The display label of an intraday period.
pub open spec fn intraday_label(p: IntradayPeriod) -> Seq<char> {
    match p {
        IntradayPeriod::Min1 => "1分钟"@,
        IntradayPeriod::Min5 => "5分钟"@,
        IntradayPeriod::Min15 => "15分钟"@,
        IntradayPeriod::Min30 => "30分钟"@,
        IntradayPeriod::Min60 => "60分钟"@,
    }
}

/// The Tencent `ktype` parameter of an intraday period.
pub open spec fn intraday_tencent_param(p: IntradayPeriod) -> Seq<char> {
    match p {
        IntradayPeriod::Min1 => "1min"@,
        IntradayPeriod::Min5 => "5min"@,
        IntradayPeriod::Min15 => "15min"@,
        IntradayPeriod::Min30 => "30min"@,
        IntradayPeriod::Min60 => "60min"@,
    }
}

impl IntradayPeriod {
    /// The display label, e.g. "5分钟".
    pub fn label(&self) -> (r: &'static str)
        ensures
            r@ == intraday_label(*self),
    {
        match self {
            IntradayPeriod::Min1 => "1分钟",
            IntradayPeriod::Min5 => "5分钟",
            IntradayPeriod::Min15 => "15分钟",
            IntradayPeriod::Min30 => "30分钟",
            IntradayPeriod::Min60 => "60分钟",
        }
    }

    /// The Tencent `ktype` parameter, e.g. "5min".
    pub fn tencent_param(&self) -> (r: &'static str)
        ensures
            r@ == intraday_tencent_param(*self),
    {
        match self {
            IntradayPeriod::Min1 => "1min",
            IntradayPeriod::Min5 => "5min",
            IntradayPeriod::Min15 => "15min",
            IntradayPeriod::Min30 => "30min",
            IntradayPeriod::Min60 => "60min",
        }
    }
}

/// Price adjustment applied to historical bars.
#[derive(Debug, Clone, Copy, PartialEq, Eq, Structural)]
pub enum AdjustType {
    Unadjusted,
    Forward,
    Backward,
}

/// An error of a data source, which lets a caller fall back to the next one.
#[derive(Debug, Clone, PartialEq, Eq)]
pub enum DataSourceError {
    ApiError(String),
    ParseError(String),
    NotSupported,
}

/// The message text of a data-source error.
pub open spec fn data_source_error_message(e: DataSourceError) -> Seq<char> {
    match e {
        DataSourceError::ApiError(s) => "API error: "@ + s@,
        DataSourceError::ParseError(s) => "Parse error: "@ + s@,
        DataSourceError::NotSupported => "Not supported by this source"@,
    }
}

impl DataSourceError {
    /// The message text of this error.
    pub fn message(&self) -> (r: String)
        ensures
            r@ == data_source_error_message(*self),
    {
        match self {
            DataSourceError::ApiError(s) => {
                let mut r = String::from_str("API error: ");
                r.append(s.as_str());
                r
            },
            DataSourceError::ParseError(s) => {
                let mut r = String::from_str("Parse error: ");
                r.append(s.as_str());
                r
            },
            DataSourceError::NotSupported => String::from_str("Not supported by this source"),
        }
    }
}

/// A calendar date.
#[derive(Debug, Clone, Copy, PartialEq, Eq, Structural)]
pub struct Date {
    pub year: i32,
    pub month: u32,
    pub day: u32,
}

/// A listed stock. Share counts are whole numbers of shares.
#[derive(Debug, Clone)]
pub struct Stock {
    pub code: String,
    pub name: String,
    pub exchange: Exchange,
    pub sector: Option<String>,
    pub industry: Option<String>,
    pub list_date: Option<Date>,
    pub total_shares: Option<u64>,
    pub float_shares: Option<u64>,
}

impl Stock {
    /// A stock known only by its code, name and exchange.
    pub fn basic(code: String, name: String, exchange: Exchange) -> (r: Stock)
        ensures
            r.code == code,
            r.name == name,
            r.exchange == exchange,
            r.sector is None,
            r.industry is None,
            r.list_date is None,
            r.total_shares is None,
            r.float_shares is None,
    {
        Stock {
            code,
            name,
            exchange,
            sector: None,
            industry: None,
            list_date: None,
            total_shares: None,
            float_shares: None,
        }
    }
}

/// The outcome of a financial-health assessment.
#[derive(Debug, Clone)]
pub struct FinancialHealth {
    pub code: String,
    /// 0 to 100
    pub score: u8,
    pub summary: String,
    pub details: Vec<String>,
}

/// A named list of stock codes.
#[derive(Debug, Clone)]
pub struct Watchlist {
    pub id: String,
    pub name: String,
    pub stocks: Vec<String>,
}

/// K-line period: the span that one bar covers.
#[derive(Debug, Clone, Copy, PartialEq, Eq, Structural)]
pub enum KlinePeriod {
    Daily,
    Weekly,
    Monthly,
    Yearly,
}

/// Time range of bars shown on the chart.
#[derive(Debug, Clone, Copy, PartialEq, Eq, Structural)]
pub enum TimeRange {
    OneMonth,
    ThreeMonths,
    SixMonths,
    OneYear,
    TwoYears,
    FiveYears,
    YearToDate,
    Max,
}

/// How many days back from today a time range reaches; `None` for all bars.
/// The year to date reaches back to January 1: as many days as have passed
/// since then (`day_of_year0`, 0 on January 1).
pub open spec fn range_days(r: TimeRange, day_of_year0: u32) -> Option<u32> {
    match r {
        TimeRange::OneMonth => Some(30),
        TimeRange::ThreeMonths => Some(90),
        TimeRange::SixMonths => Some(180),
        TimeRange::OneYear => Some(365),
        TimeRange::TwoYears => Some(730),
        TimeRange::FiveYears => Some(1825),
        TimeRange::YearToDate => Some(day_of_year0),
        TimeRange::Max => None,
    }
}

impl TimeRange {
    /// The days that the range reaches back from today; `None` for all bars.
    pub fn days(&self, day_of_year0: u32) -> (r: Option<u32>)
        ensures
            r == range_days(*self, day_of_year0),
    {
        match self {
            TimeRange::OneMonth => Some(30),
            TimeRange::ThreeMonths => Some(90),
            TimeRange::SixMonths => Some(180),
            TimeRange::OneYear => Some(365),
            TimeRange::TwoYears => Some(730),
            TimeRange::FiveYears => Some(1825),
            TimeRange::YearToDate => Some(day_of_year0),
            TimeRange::Max => None,
        }
    }
}

/// Every exchange stored under its prefix reads back as itself, so the
/// stored watchlist and browse history keep their exchanges.
pub proof fn lemma_exchange_store_round_trip(e: Exchange)
    ensures
        exchange_from_stored(exchange_prefix(e)) == e,
{
    reveal_strlit("SH");
    reveal_strlit("SZ");
    reveal_strlit("BJ");
    reveal_strlit("NYSE");
    reveal_strlit("NASDAQ");
    assert("SZ"@[1] != "SH"@[1]);
    assert("SZ"@[0] != "BJ"@[0]);
    assert("SZ"@.len() != "NYSE"@.len());
    assert("SZ"@.len() != "NASDAQ"@.len());
    assert("BJ"@[0] != "SH"@[0]);
    assert("NYSE"@.len() != "SH"@.len());
    assert("NYSE"@.len() != "BJ"@.len());
    assert("NASDAQ"@.len() != "SH"@.len());
    assert("NASDAQ"@.len() != "BJ"@.len());
    assert("NASDAQ"@.len() != "NYSE"@.len());
}

} // verus!
