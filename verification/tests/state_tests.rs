use stock_vision::model::{Exchange, KlinePeriod, Stock, TimeRange};
use stock_vision::state::{parameter_steps, search_result_label, AppState, Command, Event, Panel};

fn pingan() -> Stock {
    Stock::basic("000001".to_string(), "平安银行".to_string(), Exchange::SZ)
}

fn selected() -> AppState {
    let mut s = AppState::new();
    s.update(Event::SearchResultSelected(pingan()));
    s
}

#[test]
fn panel_defaults_to_watchlist() {
    assert_eq!(Panel::default(), Panel::Watchlist);
    assert_eq!(AppState::new().active_panel, Panel::Watchlist);
}

#[test]
fn typing_clears_results() {
    let mut s = AppState::new();
    s.update(Event::SearchResultsLoaded(vec![pingan()]));
    assert_eq!(s.search_results.len(), 1);
    let c = s.update(Event::SearchInputChanged("平".to_string()));
    assert!(matches!(c, Command::Nothing));
    assert_eq!(s.search_keyword, "平");
    assert!(s.search_results.is_empty());
}

#[test]
fn submitting_strips_market_letters() {
    let mut s = AppState::new();
    s.update(Event::SearchInputChanged("  sz000001 ".to_string()));
    match s.update(Event::SearchSubmitted) {
        Command::SearchStocks(t) => assert_eq!(t, "000001"),
        other => panic!("unexpected {:?}", other),
    }
}

#[test]
fn submitting_a_name_searches_the_name() {
    let mut s = AppState::new();
    s.update(Event::SearchInputChanged("平安".to_string()));
    match s.update(Event::SearchSubmitted) {
        Command::SearchStocks(t) => assert_eq!(t, "平安"),
        other => panic!("unexpected {:?}", other),
    }
}

#[test]
fn submitting_blank_does_nothing() {
    let mut s = AppState::new();
    s.update(Event::SearchResultsLoaded(vec![pingan()]));
    s.update(Event::SearchInputChanged("   ".to_string()));
    s.update(Event::SearchResultsLoaded(vec![pingan()]));
    assert!(matches!(s.update(Event::SearchSubmitted), Command::Nothing));
    assert_eq!(s.search_results.len(), 1);
}

#[test]
fn selecting_a_result_loads_its_bars() {
    let mut s = AppState::new();
    s.update(Event::DailyBarsLoaded(300));
    s.update(Event::SetKlinePeriod(KlinePeriod::Weekly));
    s.update(Event::SetTimeRange(TimeRange::FiveYears));
    match s.update(Event::SearchResultSelected(pingan())) {
        Command::LoadDailyBars(code, ex) => {
            assert_eq!(code, "000001");
            assert_eq!(ex, Exchange::SZ);
        }
        other => panic!("unexpected {:?}", other),
    }
    assert_eq!(s.search_keyword, "平安银行");
    assert_eq!(s.selected_stock.as_deref(), Some("000001"));
    assert_eq!(s.stock_name.as_deref(), Some("平安银行"));
    assert_eq!(s.stock_exchange, Some(Exchange::SZ));
    assert_eq!(s.active_panel, Panel::Chart);
    assert_eq!(s.kline_period, KlinePeriod::Daily);
    assert_eq!(s.time_range, TimeRange::OneYear);
    assert_eq!(s.bar_count, 0);
}

#[test]
fn changing_period_reloads_only_with_a_selection() {
    let mut s = AppState::new();
    assert!(matches!(s.update(Event::SetKlinePeriod(KlinePeriod::Monthly)), Command::Nothing));
    assert_eq!(s.kline_period, KlinePeriod::Monthly);
    let mut t = selected();
    t.update(Event::DailyBarsLoaded(500));
    match t.update(Event::SetKlinePeriod(KlinePeriod::Yearly)) {
        Command::LoadDailyBars(code, _) => assert_eq!(code, "000001"),
        other => panic!("unexpected {:?}", other),
    }
    assert_eq!(t.bar_count, 0);
    assert_eq!(t.kline_period, KlinePeriod::Yearly);
}

#[test]
fn time_range_changes_nothing_else() {
    let mut s = selected();
    s.update(Event::DailyBarsLoaded(500));
    assert!(matches!(s.update(Event::SetTimeRange(TimeRange::ThreeMonths)), Command::Nothing));
    assert_eq!(s.time_range, TimeRange::ThreeMonths);
    assert_eq!(s.bar_count, 500);
}

#[test]
fn loaded_bars_set_initial_zoom() {
    let mut s = AppState::new();
    s.update(Event::DailyBarsLoaded(250));
    assert_eq!(s.zoom_level, 60);
    s.update(Event::DailyBarsLoaded(30));
    assert_eq!(s.zoom_level, 30);
    s.update(Event::DailyBarsLoaded(4));
    assert_eq!(s.zoom_level, 10);
}

#[test]
fn zoom_is_limited() {
    let mut s = AppState::new();
    s.update(Event::DailyBarsLoaded(250));
    s.update(Event::ZoomIn(78));
    assert_eq!(s.zoom_level, 78);
    s.update(Event::ZoomIn(400));
    assert_eq!(s.zoom_level, 120);
    s.update(Event::ZoomOut(400));
    assert_eq!(s.zoom_level, 250);
    s.update(Event::ZoomOut(3));
    assert_eq!(s.zoom_level, 10);
    s.update(Event::DailyBarsLoaded(5));
    s.update(Event::ZoomIn(50));
    assert_eq!(s.zoom_level, 5);
}

#[test]
fn pan_is_limited_to_loaded_bars() {
    let mut s = AppState::new();
    s.update(Event::DailyBarsLoaded(100));
    assert_eq!(s.zoom_level, 60);
    s.update(Event::PanTo(25));
    assert_eq!(s.pan_offset, 25);
    s.update(Event::PanTo(1000));
    assert_eq!(s.pan_offset, 40);
    s.update(Event::DailyBarsLoaded(5));
    s.update(Event::PanTo(3));
    assert_eq!(s.pan_offset, 0);
}

#[test]
fn hover_and_panel_are_recorded() {
    let mut s = AppState::new();
    s.update(Event::HoverBar(Some(7)));
    assert_eq!(s.hovered_bar_index, Some(7));
    s.update(Event::HoverBar(None));
    assert_eq!(s.hovered_bar_index, None);
    s.update(Event::PanelChanged(Panel::Technical));
    assert_eq!(s.active_panel, Panel::Technical);
}

#[test]
fn adding_lists_the_selected_stock_once() {
    let mut s = selected();
    assert!(s.can_add_to_watchlist());
    assert!(!s.selected_in_watchlist());
    s.update(Event::AddToWatchlist);
    assert_eq!(s.watchlist.len(), 1);
    assert_eq!(s.watchlist[0].code, "000001");
    assert_eq!(s.watchlist[0].name, "平安银行");
    assert_eq!(s.watchlist[0].exchange, Exchange::SZ);
    assert!(s.selected_in_watchlist());
    assert!(!s.can_add_to_watchlist());
    s.add_to_watchlist();
    assert_eq!(s.watchlist.len(), 1);
}

#[test]
fn adding_without_selection_does_nothing() {
    let mut s = AppState::new();
    s.add_to_watchlist();
    assert!(s.watchlist.is_empty());
    assert!(!s.can_add_to_watchlist());
}

#[test]
fn adding_without_exchange_uses_shenzhen() {
    let mut s = AppState::new();
    s.selected_stock = Some("600000".to_string());
    s.stock_name = Some("浦发银行".to_string());
    s.add_to_watchlist();
    assert_eq!(s.watchlist[0].exchange, Exchange::SZ);
}

#[test]
fn removing_drops_every_entry_of_the_code() {
    let mut s = AppState::new();
    s.watchlist = vec![
        Stock::basic("1".to_string(), "a".to_string(), Exchange::SH),
        Stock::basic("2".to_string(), "b".to_string(), Exchange::SZ),
        Stock::basic("1".to_string(), "c".to_string(), Exchange::SZ),
        Stock::basic("3".to_string(), "d".to_string(), Exchange::SH),
    ];
    s.update(Event::RemoveFromWatchlist("1".to_string()));
    let codes: Vec<&str> = s.watchlist.iter().map(|x| x.code.as_str()).collect();
    assert_eq!(codes, vec!["2", "3"]);
    s.remove_from_watchlist("9");
    assert_eq!(s.watchlist.len(), 2);
}

#[test]
fn removing_undoes_adding() {
    let mut s = selected();
    s.watchlist = vec![Stock::basic("2".to_string(), "b".to_string(), Exchange::SH)];
    s.update(Event::AddToWatchlist);
    assert_eq!(s.watchlist.len(), 2);
    s.update(Event::RemoveFromWatchlist("000001".to_string()));
    assert_eq!(s.watchlist.len(), 1);
    assert_eq!(s.watchlist[0].code, "2");
}

#[test]
fn search_result_labels() {
    assert_eq!(search_result_label(&pingan()), "SZ.000001  平安银行");
}

#[test]
fn parameter_buttons() {
    assert_eq!(parameter_steps(14, 2, 60), (13, 15));
    assert_eq!(parameter_steps(2, 2, 60), (2, 3));
    assert_eq!(parameter_steps(60, 2, 60), (59, 60));
    assert_eq!(parameter_steps(0, 0, 5), (0, 1));
}
