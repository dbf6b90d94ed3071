use stock_vision::model::{AdjustType, Exchange, KlinePeriod};
use stock_vision::sources::{
    use_cached_bars, EastMoneySource, Fallback, FinnhubSource, MockSource, SearchItem,
    SymbolItem, TencentSource, YahooSource,
};

#[test]
fn tencent_codes() {
    assert_eq!(TencentSource::tencent_code("000001", &Exchange::SZ), "sz000001");
    assert_eq!(TencentSource::tencent_code("600519", &Exchange::SH), "sh600519");
    assert_eq!(TencentSource::tencent_code("430047", &Exchange::BJ), "bj430047");
}

#[test]
fn tencent_kline_urls() {
    assert_eq!(
        TencentSource::kline_url("000001", &Exchange::SZ, "day", "2005-01-01", 2000, "qfq"),
        "https://web.ifzq.gtimg.cn/appstock/app/fqkline/get?param=sz000001,day,2005-01-01,,2000,qfq"
    );
    assert_eq!(
        TencentSource::daily_kline_url("600519", &Exchange::SH, None, None),
        "https://web.ifzq.gtimg.cn/appstock/app/fqkline/get?param=sh600519,day,2005-01-01,,2000,qfq"
    );
    assert_eq!(
        TencentSource::daily_kline_url("600519", &Exchange::SH, Some("2024-03-01"), Some(AdjustType::Unadjusted)),
        "https://web.ifzq.gtimg.cn/appstock/app/fqkline/get?param=sh600519,day,2024-03-01,,2000,"
    );
}

#[test]
fn tencent_adjustment() {
    assert_eq!(TencentSource::adjust_param(None), "qfq");
    assert_eq!(TencentSource::adjust_param(Some(AdjustType::Forward)), "qfq");
    assert_eq!(TencentSource::adjust_param(Some(AdjustType::Backward)), "");
    assert_eq!(TencentSource::kline_series("qfq"), vec!["qfqday", "day"]);
    assert_eq!(TencentSource::kline_series(""), vec!["day"]);
}

#[test]
fn yahoo_urls_and_periods() {
    assert_eq!(
        YahooSource::chart_url("AAPL", &Exchange::NASDAQ, "2y", "1d"),
        "https://query1.finance.yahoo.com/v8/finance/chart/AAPL?range=2y&interval=1d&includePrePost=false"
    );
    assert_eq!(YahooSource::yahoo_range(KlinePeriod::Daily), "2y");
    assert_eq!(YahooSource::yahoo_range(KlinePeriod::Weekly), "5y");
    assert_eq!(YahooSource::yahoo_range(KlinePeriod::Monthly), "10y");
    assert_eq!(YahooSource::yahoo_range(KlinePeriod::Yearly), "max");
    assert_eq!(YahooSource::yahoo_interval(KlinePeriod::Daily), "1d");
    assert_eq!(YahooSource::yahoo_interval(KlinePeriod::Weekly), "1wk");
    assert_eq!(YahooSource::yahoo_interval(KlinePeriod::Monthly), "1mo");
    assert_eq!(YahooSource::yahoo_interval(KlinePeriod::Yearly), "3mo");
    assert_eq!(
        YahooSource::search_url("apple"),
        "https://query1.finance.yahoo.com/v1/finance/search?q=apple&quotesCount=10&newsCount=0"
    );
}

#[test]
fn yahoo_quotes() {
    assert_eq!(YahooSource::yahoo_exchange("NMS"), Some(Exchange::NASDAQ));
    assert_eq!(YahooSource::yahoo_exchange("NYQ"), Some(Exchange::NYSE));
    assert_eq!(YahooSource::yahoo_exchange("SHH"), Some(Exchange::SH));
    assert_eq!(YahooSource::yahoo_exchange("SHE"), Some(Exchange::SZ));
    assert_eq!(YahooSource::yahoo_exchange("LSE"), None);
    let s = YahooSource::quote_stock("AAPL", Some("Apple Inc."), Some("Apple Inc"), "NMS").unwrap();
    assert_eq!(s.name, "Apple Inc.");
    assert_eq!(s.exchange, Exchange::NASDAQ);
    let s = YahooSource::quote_stock("IBM", None, Some("International Business Machines"), "NYQ").unwrap();
    assert_eq!(s.name, "International Business Machines");
    let s = YahooSource::quote_stock("X", None, None, "NYE").unwrap();
    assert_eq!(s.name, "X");
    assert!(YahooSource::quote_stock("VOD.L", Some("Vodafone"), None, "LSE").is_none());
}

fn item(code: &str, name: &str, jys: &str) -> SearchItem {
    SearchItem { code: code.to_string(), name: name.to_string(), jys: jys.to_string(), sec_type: None }
}

#[test]
fn eastmoney_search_keeps_a_shares() {
    let items = vec![
        item("000001", "平安银行", "6"),
        item("00700", "腾讯控股", "5"),
        item("601318", "中国平安", "2"),
    ];
    let stocks = EastMoneySource::stocks_from_search(&items);
    assert_eq!(stocks.len(), 2);
    assert_eq!(stocks[0].code, "000001");
    assert_eq!(stocks[0].exchange, Exchange::SZ);
    assert_eq!(stocks[1].code, "601318");
    assert_eq!(stocks[1].name, "中国平安");
    assert_eq!(stocks[1].exchange, Exchange::SH);
}

#[test]
fn eastmoney_search_url() {
    assert_eq!(
        EastMoneySource::search_url("平安"),
        "https://searchadapter.eastmoney.com/api/suggest/get?input=%E5%B9%B3%E5%AE%89&count=20&type=14"
    );
    assert_eq!(EastMoneySource::url_encode("a b"), "a%20b");
}

#[test]
fn finnhub_needs_a_real_key() {
    assert!(!FinnhubSource::new(None).is_available());
    assert!(!FinnhubSource::new(Some(String::new())).is_available());
    assert!(!FinnhubSource::new(Some("your_key_here".to_string())).is_available());
    let f = FinnhubSource::new(Some("abc123".to_string()));
    assert!(f.is_available());
    assert_eq!(f.c().unwrap().api_key, "abc123");
    match FinnhubSource::new(None).c() {
        Err(m) => assert_eq!(m, "Finnhub API key not configured"),
        Ok(_) => panic!("no key was given"),
    }
}

#[test]
fn finnhub_exchanges() {
    for s in ["NYSE", "NYQ", "NYE"] {
        assert_eq!(FinnhubSource::map_exchange(s), Some(Exchange::NYSE));
    }
    for s in ["NASDAQ", "NAS", "NMS", "NCM"] {
        assert_eq!(FinnhubSource::map_exchange(s), Some(Exchange::NASDAQ));
    }
    assert_eq!(FinnhubSource::map_exchange("SS"), Some(Exchange::SH));
    assert_eq!(FinnhubSource::map_exchange("SHH"), Some(Exchange::SH));
    assert_eq!(FinnhubSource::map_exchange("SZ"), Some(Exchange::SZ));
    assert_eq!(FinnhubSource::map_exchange("Common Stock"), None);
}

#[test]
fn finnhub_symbols() {
    let items = vec![
        SymbolItem { symbol: "AAPL".into(), description: "APPLE INC".into(), security_type: "NMS".into() },
        SymbolItem { symbol: "X".into(), description: "ETF".into(), security_type: "ETP".into() },
    ];
    let stocks = FinnhubSource::stocks_from_symbols(&items);
    assert_eq!(stocks.len(), 1);
    assert_eq!(stocks[0].code, "AAPL");
    assert_eq!(stocks[0].name, "APPLE INC");
    assert_eq!(stocks[0].exchange, Exchange::NASDAQ);
}

#[test]
fn mock_search() {
    let r = MockSource.search_stocks("平安");
    assert_eq!(r.len(), 1);
    assert_eq!(r[0].code, "000001");
    assert_eq!(r[0].name, "Mock平安");
    assert_eq!(r[0].exchange, Exchange::SZ);
    assert_eq!(r[0].sector.as_deref(), Some("银行"));
    assert_eq!(r[0].industry.as_deref(), Some("银行"));
    assert_eq!(r[0].total_shares, Some(100_000_000_000));
    assert_eq!(r[0].float_shares, Some(80_000_000_000));
}

#[test]
fn fallback_returns_first_data() {
    let mut f: Fallback<String> = Fallback::new();
    assert_eq!(f.observe::<u32>(Err("down".to_string())), None);
    assert_eq!(f.last_err.as_deref(), Some("down"));
    assert_eq!(f.observe::<u32>(Ok(vec![])), None);
    assert!(f.last_err.is_none());
    assert_eq!(f.observe(Ok(vec![1u32, 2])), Some(vec![1, 2]));
}

#[test]
fn fallback_reports_last_error() {
    let mut f: Fallback<String> = Fallback::new();
    f.observe::<u32>(Err("first".to_string()));
    f.observe::<u32>(Ok(vec![]));
    f.observe::<u32>(Err("last".to_string()));
    assert_eq!(f.finish(), "last");
}

#[test]
fn fallback_any_answer_ends() {
    let mut f: Fallback<String> = Fallback::new();
    assert_eq!(f.observe_any::<u32>(Err("no".to_string())), None);
    assert_eq!(f.observe_any(Ok(0u32)), Some(0));
    assert_eq!(f.last_err.as_deref(), Some("no"));
}

#[test]
fn cache_threshold() {
    assert!(!use_cached_bars(0));
    assert!(!use_cached_bars(99));
    assert!(use_cached_bars(100));
    assert!(use_cached_bars(4000));
}
