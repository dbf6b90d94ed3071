use stock_vision::indicators::{average_series_empty, toggle_indicator, IndicatorType, EMA, MACD, RSI, SMA};
use stock_vision::style::{current_theme, set_current_theme, ThemeMode, ThemeSetting};

#[test]
fn indicator_names() {
    assert_eq!(SMA { period: 5 }.name(), "SMA");
    assert_eq!(EMA { period: 12 }.name(), "EMA");
    assert_eq!(MACD { fast: 12, slow: 26, signal: 9 }.name(), "MACD");
    assert_eq!(RSI { period: 14 }.name(), "RSI");
    assert_eq!(SMA { period: 20 }.result_name(), "SMA(20)");
    assert_eq!(EMA { period: 12 }.result_name(), "EMA(12)");
    assert_eq!(RSI { period: 14 }.result_name(), "RSI(14)");
}

#[test]
fn sma_windows() {
    let s = SMA { period: 5 };
    assert_eq!(s.window(3), None);
    assert_eq!(s.window(4), Some((0, 5)));
    assert_eq!(s.window(10), Some((6, 11)));
    assert_eq!(SMA { period: 0 }.window(2), Some((3, 3)));
}

#[test]
fn rsi_windows() {
    let r = RSI { period: 14 };
    assert_eq!(r.window(13), None);
    assert_eq!(r.window(14), Some((1, 15)));
    assert_eq!(r.window(20), Some((7, 21)));
    assert_eq!(RSI { period: 0 }.window(0), Some((1, 1)));
}

#[test]
fn empty_average_series() {
    assert!(average_series_empty(0, 5));
    assert!(average_series_empty(10, 0));
    assert!(!average_series_empty(10, 5));
}

#[test]
fn indicator_types() {
    assert_eq!(IndicatorType::BollingerBands.label(), "BOLL(20,2)");
    assert_eq!(IndicatorType::KDJ.label(), "KDJ(9,3,3)");
    assert_eq!(IndicatorType::RSI.label(), "RSI(14)");
    assert_eq!(IndicatorType::MACD.label(), "MACD(12,26,9)");
    assert!(IndicatorType::BollingerBands.is_chart_overlay());
    assert!(!IndicatorType::BollingerBands.is_sub_panel());
    for t in [IndicatorType::KDJ, IndicatorType::RSI, IndicatorType::MACD] {
        assert!(!t.is_chart_overlay());
        assert!(t.is_sub_panel());
    }
}

#[test]
fn theme_setting_reads_back() {
    let mut s = ThemeSetting::new();
    assert_eq!(current_theme(&s), ThemeMode::Dark);
    set_current_theme(&mut s, ThemeMode::Light);
    assert_eq!(s.code, 1);
    assert_eq!(current_theme(&s), ThemeMode::Light);
    set_current_theme(&mut s, ThemeMode::Dark);
    assert_eq!(current_theme(&s), ThemeMode::Dark);
    assert_eq!(current_theme(&ThemeSetting { code: 7 }), ThemeMode::Light);
    assert_eq!(ThemeMode::Dark.label(), "深色");
    assert_eq!(ThemeMode::Light.label(), "亮色");
}

#[test]
fn theme_starts_dark() {
    assert_eq!(ThemeSetting::new().code, 0);
    assert_eq!(current_theme(&ThemeSetting::new()), ThemeMode::Dark);
}

#[test]
fn toggling_indicators() {
    let mut active = vec![IndicatorType::MACD, IndicatorType::RSI];
    toggle_indicator(&mut active, IndicatorType::KDJ);
    assert_eq!(active, vec![IndicatorType::MACD, IndicatorType::RSI, IndicatorType::KDJ]);
    toggle_indicator(&mut active, IndicatorType::RSI);
    assert_eq!(active, vec![IndicatorType::MACD, IndicatorType::KDJ]);
    toggle_indicator(&mut active, IndicatorType::KDJ);
    assert_eq!(active, vec![IndicatorType::MACD]);
    // Only the first occurrence goes.
    let mut twice = vec![IndicatorType::RSI, IndicatorType::MACD, IndicatorType::RSI];
    toggle_indicator(&mut twice, IndicatorType::RSI);
    assert_eq!(twice, vec![IndicatorType::MACD, IndicatorType::RSI]);
}
