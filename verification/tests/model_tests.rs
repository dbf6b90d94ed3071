use stock_vision::model::{DataSourceError, Exchange, IntradayPeriod, ReportType, Stock, TimeRange};

#[test]
fn exchange_prefixes() {
    assert_eq!(Exchange::SZ.prefix(), "SZ");
    assert_eq!(Exchange::SH.prefix(), "SH");
    assert_eq!(Exchange::BJ.prefix(), "BJ");
    assert_eq!(Exchange::NYSE.prefix(), "NYSE");
    assert_eq!(Exchange::NASDAQ.prefix(), "NASDAQ");
}

#[test]
fn exchange_us_markets() {
    assert!(Exchange::NYSE.is_us());
    assert!(Exchange::NASDAQ.is_us());
    assert!(!Exchange::SH.is_us());
    assert!(!Exchange::SZ.is_us());
    assert!(!Exchange::BJ.is_us());
}

#[test]
fn exchange_stored_names_round_trip() {
    assert_eq!(Exchange::from_stored(Exchange::SH.prefix()), Exchange::SH);
    assert_eq!(Exchange::from_stored(Exchange::SZ.prefix()), Exchange::SZ);
    assert_eq!(Exchange::from_stored(Exchange::BJ.prefix()), Exchange::BJ);
    assert_eq!(Exchange::from_stored(Exchange::NYSE.prefix()), Exchange::NYSE);
    assert_eq!(Exchange::from_stored(Exchange::NASDAQ.prefix()), Exchange::NASDAQ);
    // An unknown name reads as Shenzhen.
    assert_eq!(Exchange::from_stored("anything"), Exchange::SZ);
}

#[test]
fn intraday_period_labels() {
    assert_eq!(IntradayPeriod::Min1.label(), "1分钟");
    assert_eq!(IntradayPeriod::Min5.label(), "5分钟");
    assert_eq!(IntradayPeriod::Min15.label(), "15分钟");
    assert_eq!(IntradayPeriod::Min30.label(), "30分钟");
    assert_eq!(IntradayPeriod::Min60.label(), "60分钟");
}

#[test]
fn intraday_period_tencent_params() {
    assert_eq!(IntradayPeriod::Min1.tencent_param(), "1min");
    assert_eq!(IntradayPeriod::Min5.tencent_param(), "5min");
    assert_eq!(IntradayPeriod::Min15.tencent_param(), "15min");
    assert_eq!(IntradayPeriod::Min30.tencent_param(), "30min");
    assert_eq!(IntradayPeriod::Min60.tencent_param(), "60min");
}

#[test]
fn report_type_by_month() {
    assert_eq!(ReportType::for_month(1), ReportType::Q1);
    assert_eq!(ReportType::for_month(3), ReportType::Q1);
    assert_eq!(ReportType::for_month(4), ReportType::Mid);
    assert_eq!(ReportType::for_month(6), ReportType::Mid);
    assert_eq!(ReportType::for_month(7), ReportType::Q3);
    assert_eq!(ReportType::for_month(9), ReportType::Q3);
    assert_eq!(ReportType::for_month(10), ReportType::Annual);
    assert_eq!(ReportType::for_month(12), ReportType::Annual);
    assert_eq!(ReportType::for_month(0), ReportType::Annual);
    assert_eq!(ReportType::for_month(13), ReportType::Annual);
}

#[test]
fn data_source_error_messages() {
    assert_eq!(DataSourceError::ApiError("timeout".to_string()).message(), "API error: timeout");
    assert_eq!(DataSourceError::ParseError("bad json".to_string()).message(), "Parse error: bad json");
    assert_eq!(DataSourceError::NotSupported.message(), "Not supported by this source");
}

#[test]
fn basic_stock_has_no_details() {
    let s = Stock::basic("600519".to_string(), "贵州茅台".to_string(), Exchange::SH);
    assert_eq!(s.code, "600519");
    assert_eq!(s.name, "贵州茅台");
    assert_eq!(s.exchange, Exchange::SH);
    assert!(s.sector.is_none() && s.industry.is_none() && s.list_date.is_none());
    assert!(s.total_shares.is_none() && s.float_shares.is_none());
}

#[test]
fn time_range_day_counts() {
    assert_eq!(TimeRange::OneMonth.days(100), Some(30));
    assert_eq!(TimeRange::ThreeMonths.days(100), Some(90));
    assert_eq!(TimeRange::SixMonths.days(100), Some(180));
    assert_eq!(TimeRange::OneYear.days(100), Some(365));
    assert_eq!(TimeRange::TwoYears.days(100), Some(730));
    assert_eq!(TimeRange::FiveYears.days(100), Some(1825));
    assert_eq!(TimeRange::YearToDate.days(0), Some(0));
    assert_eq!(TimeRange::YearToDate.days(100), Some(100));
    assert_eq!(TimeRange::Max.days(100), None);
}
