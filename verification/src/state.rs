//! Application state and its transitions.
//!
//! `AppState::update` is the application's decision function: given the
//! current state and an event (a user action or a finished load), it
//! gives the next state and the command that the application must run.
//! Loading data, the clock and drawing are left to the application.

use vstd::prelude::*;
use vstd::string::*;
use crate::model::{Exchange, KlinePeriod, Stock, TimeRange, exchange_prefix, str_eq};
use crate::text::{alphabetic, strip_leading, trim, trim_start_alphabetic, trimmed};

verus! {

/// The panel shown in the main area.
#[derive(Debug, Clone, Copy, PartialEq, Eq, Structural)]
pub enum Panel {
    Watchlist,
    Chart,
    Fundamental,
    Technical,
    Settings,
}

impl Default for Panel {
    fn default() -> (r: Panel)
        ensures
            r == Panel::Watchlist,
    {
        Panel::Watchlist
    }
}

/// The state that the application's decisions read and change.
pub struct AppState {
    pub search_keyword: String,
    pub search_results: Vec<Stock>,
    pub selected_stock: Option<String>,
    pub stock_name: Option<String>,
    pub stock_exchange: Option<Exchange>,
    pub watchlist: Vec<Stock>,
    pub active_panel: Panel,
    pub kline_period: KlinePeriod,
    pub time_range: TimeRange,
    /// How many daily bars are loaded.
    pub bar_count: usize,
    /// How many bars the chart shows.
    pub zoom_level: usize,
    /// How many of the latest bars the chart is scrolled back past.
    pub pan_offset: usize,
    pub hovered_bar_index: Option<usize>,
}

/// The mathematical value of an `AppState`.
pub struct AppStateView {
    pub search_keyword: String,
    pub search_results: Seq<Stock>,
    pub selected_stock: Option<String>,
    pub stock_name: Option<String>,
    pub stock_exchange: Option<Exchange>,
    pub watchlist: Seq<Stock>,
    pub active_panel: Panel,
    pub kline_period: KlinePeriod,
    pub time_range: TimeRange,
    pub bar_count: usize,
    pub zoom_level: usize,
    pub pan_offset: usize,
    pub hovered_bar_index: Option<usize>,
}

impl View for AppState {
    type V = AppStateView;

    open spec fn view(&self) -> AppStateView {
        AppStateView {
            search_keyword: self.search_keyword,
            search_results: self.search_results@,
            selected_stock: self.selected_stock,
            stock_name: self.stock_name,
            stock_exchange: self.stock_exchange,
            watchlist: self.watchlist@,
            active_panel: self.active_panel,
            kline_period: self.kline_period,
            time_range: self.time_range,
            bar_count: self.bar_count,
            zoom_level: self.zoom_level,
            pan_offset: self.pan_offset,
            hovered_bar_index: self.hovered_bar_index,
        }
    }
}

/// An event that changes the application state.
pub enum Event {
    SearchInputChanged(String),
    SearchSubmitted,
    SearchResultsLoaded(Vec<Stock>),
    SearchResultSelected(Stock),
    PanelChanged(Panel),
    /// Daily bars arrived; the count of bars.
    DailyBarsLoaded(usize),
    AddToWatchlist,
    RemoveFromWatchlist(String),
    SetKlinePeriod(KlinePeriod),
    SetTimeRange(TimeRange),
    /// Zoom in; the current zoom level scaled up by 1.3, rounded down.
    ZoomIn(usize),
    /// Zoom out; the current zoom level scaled down by 1.3, rounded down.
    ZoomOut(usize),
    HoverBar(Option<usize>),
    /// Pan the chart; the new offset before it is limited to the bars loaded.
    PanTo(usize),
}

/// What the application must do after a transition.
#[derive(Debug)]
pub enum Command {
    Nothing,
    /// Search stocks for this term.
    SearchStocks(String),
    /// Discard the loaded daily bars and load those of this stock.
    LoadDailyBars(String, Exchange),
}

pub enum CommandView {
    Nothing,
    SearchStocks(Seq<char>),
    LoadDailyBars(Seq<char>, Exchange),
}

impl View for Command {
    type V = CommandView;

    open spec fn view(&self) -> CommandView {
        match self {
            Command::Nothing => CommandView::Nothing,
            Command::SearchStocks(t) => CommandView::SearchStocks(t@),
            Command::LoadDailyBars(c, e) => CommandView::LoadDailyBars(c@, *e),
        }
    }
}

/// Whether some stock of `w` has the code `code`.
pub open spec fn has_code(w: Seq<Stock>, code: Seq<char>) -> bool {
    exists|i: int| 0 <= i < w.len() && (#[trigger] w[i]).code@ == code
}

/// The watchlist entry made for a selected stock.
pub open spec fn watch_entry(code: String, name: String, exchange: Option<Exchange>) -> Stock {
    Stock {
        code,
        name,
        exchange: match exchange {
            Some(e) => e,
            None => Exchange::SZ,
        },
        sector: None,
        industry: None,
        list_date: None,
        total_shares: None,
        float_shares: None,
    }
}

/// The watchlist after adding the selected stock: it is appended when a
/// stock with a name is selected and its code is not yet in the list.
pub open spec fn watchlist_after_add(
    w: Seq<Stock>,
    selected: Option<String>,
    name: Option<String>,
    exchange: Option<Exchange>,
) -> Seq<Stock> {
    match (selected, name) {
        (Some(c), Some(n)) => if has_code(w, c@) {
            w
        } else {
            w.push(watch_entry(c, n, exchange))
        },
        _ => w,
    }
}

pub open spec fn keeps_code_other_than(code: Seq<char>) -> spec_fn(Stock) -> bool {
    |s: Stock| s.code@ != code
}

/// The watchlist after removing a code: every entry with that code goes,
/// the others stay in their order.
pub open spec fn watchlist_after_remove(w: Seq<Stock>, code: Seq<char>) -> Seq<Stock> {
    w.filter(keeps_code_other_than(code))
}

/// The term searched for a keyword: the trimmed keyword without its
/// leading letters, or the trimmed keyword itself when nothing else is
/// left; no term for a blank keyword.
pub open spec fn search_term(keyword: Seq<char>) -> Option<Seq<char>> {
    let kw = trimmed(keyword);
    if kw.len() == 0 {
        None
    } else {
        let clean = strip_leading(kw, alphabetic());
        Some(if clean.len() == 0 { kw } else { clean })
    }
}

pub open spec fn min_usize(a: usize, b: usize) -> usize {
    if a <= b { a } else { b }
}

pub open spec fn max_usize(a: usize, b: usize) -> usize {
    if a >= b { a } else { b }
}

/// A requested zoom level held to at least 10 bars and at most `limit`
/// bars (or all bars loaded, when fewer).
pub open spec fn clamp_zoom(requested: usize, bar_count: usize, limit: usize) -> usize {
    min_usize(max_usize(requested, 10), min_usize(bar_count, limit))
}

/// The zoom level when `n` bars have been loaded: 60 bars, or all of them
/// when fewer, but at least 10.
pub open spec fn initial_zoom(n: usize) -> usize {
    max_usize(min_usize(n, 60), 10)
}

/// A requested pan offset held so that the shown bars stay within those loaded.
pub open spec fn clamp_pan(requested: usize, bar_count: usize, zoom: usize) -> usize {
    min_usize(requested, if bar_count >= zoom { (bar_count - zoom) as usize } else { 0 })
}

/// The state after an event.
pub open spec fn next_state(s: AppStateView, e: Event) -> AppStateView {
    match e {
        Event::SearchInputChanged(k) => AppStateView {
            search_keyword: k,
            search_results: Seq::empty(),
            ..s
        },
        Event::SearchSubmitted => match search_term(s.search_keyword@) {
            None => s,
            Some(_) => AppStateView { search_results: Seq::empty(), ..s },
        },
        Event::SearchResultsLoaded(v) => AppStateView { search_results: v@, ..s },
        Event::SearchResultSelected(stock) => AppStateView {
            search_keyword: stock.name,
            search_results: Seq::empty(),
            selected_stock: Some(stock.code),
            stock_name: Some(stock.name),
            stock_exchange: Some(stock.exchange),
            active_panel: Panel::Chart,
            kline_period: KlinePeriod::Daily,
            time_range: TimeRange::OneYear,
            bar_count: 0,
            ..s
        },
        Event::PanelChanged(p) => AppStateView { active_panel: p, ..s },
        Event::DailyBarsLoaded(n) => AppStateView {
            bar_count: n,
            zoom_level: initial_zoom(n),
            ..s
        },
        Event::AddToWatchlist => AppStateView {
            watchlist: watchlist_after_add(
                s.watchlist,
                s.selected_stock,
                s.stock_name,
                s.stock_exchange,
            ),
            ..s
        },
        Event::RemoveFromWatchlist(c) => AppStateView {
            watchlist: watchlist_after_remove(s.watchlist, c@),
            ..s
        },
        Event::SetKlinePeriod(p) => if s.selected_stock is Some && s.stock_exchange is Some {
            AppStateView { kline_period: p, bar_count: 0, ..s }
        } else {
            AppStateView { kline_period: p, ..s }
        },
        Event::SetTimeRange(r) => AppStateView { time_range: r, ..s },
        Event::ZoomIn(z) => AppStateView { zoom_level: clamp_zoom(z, s.bar_count, 120), ..s },
        Event::ZoomOut(z) => AppStateView { zoom_level: clamp_zoom(z, s.bar_count, 2000), ..s },
        Event::HoverBar(h) => AppStateView { hovered_bar_index: h, ..s },
        Event::PanTo(p) => AppStateView {
            pan_offset: clamp_pan(p, s.bar_count, s.zoom_level),
            ..s
        },
    }
}

/// The command that follows an event.
pub open spec fn next_command(s: AppStateView, e: Event) -> CommandView {
    match e {
        Event::SearchSubmitted => match search_term(s.search_keyword@) {
            None => CommandView::Nothing,
            Some(t) => CommandView::SearchStocks(t),
        },
        Event::SearchResultSelected(stock) => CommandView::LoadDailyBars(
            stock.code@,
            stock.exchange,
        ),
        Event::SetKlinePeriod(_) => match (s.selected_stock, s.stock_exchange) {
            (Some(c), Some(x)) => CommandView::LoadDailyBars(c@, x),
            _ => CommandView::Nothing,
        },
        _ => CommandView::Nothing,
    }
}

fn has_code_exec(w: &Vec<Stock>, code: &String) -> (r: bool)
    ensures
        r == has_code(w@, code@),
{
    let n = w.len();
    let mut i: usize = 0;
    while i < n
        invariant
            n == w@.len(),
            i <= n,
            forall|j: int| 0 <= j < i ==> (#[trigger] w@[j]).code@ != code@,
        decreases n - i,
    {
        if w[i].code == *code {
            assert(w@[i as int].code@ == code@);
            return true;
        }
        i = i + 1;
    }
    false
}

fn remove_code(w: &mut Vec<Stock>, code: &str)
    ensures
        final(w)@ == watchlist_after_remove(old(w)@, code@),
{
    let ghost orig = w@;
    let ghost p = keeps_code_other_than(code@);
    let ghost mut k: int = 0;
    let mut i: usize = 0;
    assert(orig.take(0).filter(p) =~= Seq::<Stock>::empty()) by {
        reveal(Seq::filter);
    }
    assert(w@.skip(0) =~= orig.skip(0));
    while i < w.len()
        invariant
            0 <= k <= orig.len(),
            i <= w@.len(),
            w@.take(i as int) == orig.take(k).filter(p),
            w@.skip(i as int) == orig.skip(k),
            w@.len() - i == orig.len() - k,
            p == keeps_code_other_than(code@),
        decreases w@.len() - i,
    {
        let ghost before = w@;
        assert(before[i as int] == orig[k]) by {
            assert(before.skip(i as int)[0] == orig.skip(k)[0]);
        }
        assert(orig.take(k + 1).drop_last() =~= orig.take(k));
        assert(orig.take(k + 1).last() == orig[k]);
        if str_eq(w[i].code.as_str(), code) {
            w.remove(i);
            proof {
                reveal(Seq::filter);
                assert(w@.take(i as int) =~= before.take(i as int));
                assert forall|j: int| 0 <= j < w@.len() - i implies #[trigger] w@.skip(i as int)[j] == orig.skip(
                    k + 1,
                )[j] by {
                    assert(before.skip(i as int)[j + 1] == orig.skip(k)[j + 1]);
                }
                assert(w@.skip(i as int) =~= orig.skip(k + 1));
                k = k + 1;
            }
        } else {
            proof {
                reveal(Seq::filter);
                assert(w@.take(i + 1) =~= before.take(i as int).push(before[i as int]));
                assert forall|j: int| 0 <= j < w@.len() - i - 1 implies #[trigger] w@.skip(i + 1)[j] == orig.skip(
                    k + 1,
                )[j] by {
                    assert(before.skip(i as int)[j + 1] == orig.skip(k)[j + 1]);
                }
                assert(w@.skip(i + 1) =~= orig.skip(k + 1));
                k = k + 1;
            }
            i = i + 1;
        }
    }
    assert(orig.skip(k).len() == 0);
    assert(orig.take(k) =~= orig);
    assert(w@.take(i as int) =~= w@);
}

fn min_u(a: usize, b: usize) -> (r: usize)
    ensures
        r == min_usize(a, b),
{
    if a <= b { a } else { b }
}

fn max_u(a: usize, b: usize) -> (r: usize)
    ensures
        r == max_usize(a, b),
{
    if a >= b { a } else { b }
}

impl AppState {
    /// The state at start-up: nothing searched, selected or loaded.
    pub fn new() -> (r: AppState)
        ensures
            r.search_keyword@ == Seq::<char>::empty(),
            r.search_results@ == Seq::<Stock>::empty(),
            r.selected_stock is None,
            r.stock_name is None,
            r.stock_exchange is None,
            r.watchlist@ == Seq::<Stock>::empty(),
            r.active_panel == Panel::Watchlist,
            r.kline_period == KlinePeriod::Daily,
            r.time_range == TimeRange::OneYear,
            r.bar_count == 0,
            r.zoom_level == 60,
            r.pan_offset == 0,
            r.hovered_bar_index is None,
    {
        AppState {
            search_keyword: String::new(),
            search_results: Vec::new(),
            selected_stock: None,
            stock_name: None,
            stock_exchange: None,
            watchlist: Vec::new(),
            active_panel: Panel::default(),
            kline_period: KlinePeriod::Daily,
            time_range: TimeRange::OneYear,
            bar_count: 0,
            zoom_level: 60,
            pan_offset: 0,
            hovered_bar_index: None,
        }
    }

    /// Adds the selected stock to the watchlist, unless its code is there already.
    pub fn add_to_watchlist(&mut self)
        ensures
            final(self)@ == (AppStateView {
                watchlist: watchlist_after_add(
                    old(self)@.watchlist,
                    old(self).selected_stock,
                    old(self).stock_name,
                    old(self).stock_exchange,
                ),
                ..old(self)@
            }),
    {
        match (&self.selected_stock, &self.stock_name) {
            (Some(code), Some(name)) => {
                if !has_code_exec(&self.watchlist, code) {
                    let exchange = match self.stock_exchange {
                        Some(e) => e,
                        None => Exchange::SZ,
                    };
                    let entry = Stock::basic(code.clone(), name.clone(), exchange);
                    self.watchlist.push(entry);
                }
            },
            _ => {},
        }
    }

    /// Removes every watchlist entry with the given code.
    pub fn remove_from_watchlist(&mut self, code: &str)
        ensures
            final(self)@ == (AppStateView {
                watchlist: watchlist_after_remove(old(self)@.watchlist, code@),
                ..old(self)@
            }),
    {
        remove_code(&mut self.watchlist, code);
    }

    /// Applies an event: changes the state and tells the application what to do.
    pub fn update(&mut self, event: Event) -> (r: Command)
        ensures
            final(self)@ == next_state(old(self)@, event),
            r@ == next_command(old(self)@, event),
    {
        match event {
            Event::SearchInputChanged(k) => {
                self.search_keyword = k;
                self.search_results = Vec::new();
                Command::Nothing
            },
            Event::SearchSubmitted => {
                let kw = trim(self.search_keyword.as_str());
                if kw.unicode_len() == 0 {
                    return Command::Nothing;
                }
                let clean = trim_start_alphabetic(kw.as_str());
                let term = if clean.unicode_len() == 0 { kw } else { clean };
                self.search_results = Vec::new();
                Command::SearchStocks(term)
            },
            Event::SearchResultsLoaded(v) => {
                self.search_results = v;
                Command::Nothing
            },
            Event::SearchResultSelected(stock) => {
                let code = stock.code.clone();
                let exchange = stock.exchange;
                self.search_keyword = stock.name.clone();
                self.search_results = Vec::new();
                self.selected_stock = Some(stock.code);
                self.stock_name = Some(stock.name);
                self.stock_exchange = Some(stock.exchange);
                self.active_panel = Panel::Chart;
                self.kline_period = KlinePeriod::Daily;
                self.time_range = TimeRange::OneYear;
                self.bar_count = 0;
                Command::LoadDailyBars(code, exchange)
            },
            Event::PanelChanged(p) => {
                self.active_panel = p;
                Command::Nothing
            },
            Event::DailyBarsLoaded(n) => {
                self.bar_count = n;
                self.zoom_level = max_u(min_u(n, 60), 10);
                Command::Nothing
            },
            Event::AddToWatchlist => {
                self.add_to_watchlist();
                Command::Nothing
            },
            Event::RemoveFromWatchlist(c) => {
                self.remove_from_watchlist(c.as_str());
                Command::Nothing
            },
            Event::SetKlinePeriod(p) => {
                self.kline_period = p;
                match (&self.selected_stock, &self.stock_exchange) {
                    (Some(code), Some(x)) => {
                        let code = code.clone();
                        let x = *x;
                        self.bar_count = 0;
                        Command::LoadDailyBars(code, x)
                    },
                    _ => Command::Nothing,
                }
            },
            Event::SetTimeRange(r) => {
                // The time range filters the loaded bars; nothing is reloaded.
                self.time_range = r;
                Command::Nothing
            },
            Event::ZoomIn(z) => {
                let max_visible = min_u(self.bar_count, 120);
                self.zoom_level = min_u(max_u(z, 10), max_visible);
                Command::Nothing
            },
            Event::ZoomOut(z) => {
                let max_visible = min_u(self.bar_count, 2000);
                self.zoom_level = min_u(max_u(z, 10), max_visible);
                Command::Nothing
            },
            Event::HoverBar(h) => {
                self.hovered_bar_index = h;
                Command::Nothing
            },
            Event::PanTo(p) => {
                self.pan_offset = min_u(p, self.bar_count.saturating_sub(self.zoom_level));
                Command::Nothing
            },
        }
    }
}

/// After the selected stock is added, the watchlist holds its code.
pub proof fn lemma_add_then_listed(s: AppStateView)
    requires
        s.selected_stock is Some,
        s.stock_name is Some,
    ensures
        has_code(next_state(s, Event::AddToWatchlist).watchlist, s.selected_stock->0@),
{
    let w = s.watchlist;
    let c = s.selected_stock->0;
    if !has_code(w, c@) {
        let w2 = w.push(watch_entry(c, s.stock_name->0, s.stock_exchange));
        assert(w2[w.len() as int].code@ == c@);
    }
}

/// Adding the selected stock appends one entry, keeping the others: it has
/// the selected code and name, the selected exchange (Shenzhen only when no
/// exchange is known) and nothing else. When no stock with a name is
/// selected, or its code is already listed, the watchlist stays as it is.
pub proof fn lemma_add_appends_selected(s: AppStateView)
    ensures
        ({
            let w = next_state(s, Event::AddToWatchlist).watchlist;
            if s.selected_stock is Some && s.stock_name is Some && !has_code(
                s.watchlist,
                s.selected_stock->0@,
            ) {
                &&& w.len() == s.watchlist.len() + 1
                &&& w.take(s.watchlist.len() as int) == s.watchlist
                &&& w.last().code == s.selected_stock->0
                &&& w.last().name == s.stock_name->0
                &&& (s.stock_exchange matches Some(e) ==> w.last().exchange == e)
                &&& (s.stock_exchange is None ==> w.last().exchange == Exchange::SZ)
                &&& w.last().sector is None && w.last().industry is None
                &&& w.last().list_date is None
                &&& w.last().total_shares is None && w.last().float_shares is None
            } else {
                w == s.watchlist
            }
        }),
{
    let w = next_state(s, Event::AddToWatchlist).watchlist;
    if s.selected_stock is Some && s.stock_name is Some && !has_code(s.watchlist, s.selected_stock->0@) {
        assert(w.take(s.watchlist.len() as int) =~= s.watchlist);
    }
}

/// Adding the selected stock twice leaves the same watchlist as adding it once.
pub proof fn lemma_add_idempotent(s: AppStateView)
    ensures
        next_state(next_state(s, Event::AddToWatchlist), Event::AddToWatchlist)
            == next_state(s, Event::AddToWatchlist),
{
    let t = next_state(s, Event::AddToWatchlist);
    if s.selected_stock is Some && s.stock_name is Some {
        lemma_add_then_listed(s);
    }
    assert(next_state(t, Event::AddToWatchlist).watchlist =~= t.watchlist);
}

proof fn lemma_filter_keeps_all(w: Seq<Stock>, code: Seq<char>)
    requires
        !has_code(w, code),
    ensures
        w.filter(keeps_code_other_than(code)) == w,
    decreases w.len(),
{
    reveal(Seq::filter);
    if w.len() > 0 {
        let d = w.drop_last();
        assert forall|i: int| 0 <= i < d.len() implies (#[trigger] d[i]).code@ != code by {
            assert(w[i] == d[i]);
        }
        lemma_filter_keeps_all(d, code);
        assert(w.last() == w[w.len() - 1]);
        assert(d.push(w.last()) =~= w);
    }
}

/// Removing a code that no entry has leaves the watchlist as it is.
pub proof fn lemma_remove_absent_unchanged(w: Seq<Stock>, code: Seq<char>)
    requires
        !has_code(w, code),
    ensures
        watchlist_after_remove(w, code) == w,
{
    lemma_filter_keeps_all(w, code);
}

/// After a code is removed, no entry of the watchlist has it, and every
/// entry of the old watchlist with another code is still there.
pub proof fn lemma_remove_then_unlisted(w: Seq<Stock>, code: Seq<char>)
    ensures
        !has_code(watchlist_after_remove(w, code), code),
        forall|i: int|
            0 <= i < w.len() && w[i].code@ != code ==> #[trigger] watchlist_after_remove(
                w,
                code,
            ).contains(w[i]),
{
    let p = keeps_code_other_than(code);
    broadcast use vstd::seq_lib::group_filter_ensures;

    let f = w.filter(p);
    if has_code(f, code) {
        let i = choose|i: int| 0 <= i < f.len() && (#[trigger] f[i]).code@ == code;
        assert(p(f[i]));
    }
    assert forall|i: int| 0 <= i < w.len() && w[i].code@ != code implies #[trigger] f.contains(
        w[i],
    ) by {
        assert(p(w[i]));
    }
}

/// Removing a code that the selected stock brought into the watchlist
/// undoes the addition.
pub proof fn lemma_remove_undoes_add(s: AppStateView)
    requires
        s.selected_stock is Some,
        s.stock_name is Some,
        !has_code(s.watchlist, s.selected_stock->0@),
    ensures
        watchlist_after_remove(
            next_state(s, Event::AddToWatchlist).watchlist,
            s.selected_stock->0@,
        ) == s.watchlist,
{
    let c = s.selected_stock->0;
    let w = s.watchlist;
    let e = watch_entry(c, s.stock_name->0, s.stock_exchange);
    let p = keeps_code_other_than(c@);
    reveal(Seq::filter);
    assert(w.push(e).drop_last() =~= w);
    assert(!p(e));
    lemma_filter_keeps_all(w, c@);
}

/// Zooming never shows more bars than are loaded, nor more than 120 bars
/// after zooming in or 2000 after zooming out.
pub proof fn lemma_zoom_within_loaded(s: AppStateView, z: usize)
    ensures
        next_state(s, Event::ZoomIn(z)).zoom_level <= s.bar_count,
        next_state(s, Event::ZoomIn(z)).zoom_level <= 120,
        next_state(s, Event::ZoomOut(z)).zoom_level <= s.bar_count,
        next_state(s, Event::ZoomOut(z)).zoom_level <= 2000,
{
}

/// Zooming takes the requested number of bars when it lies between 10 and
/// the most allowed (the bars loaded, but at most 120 when zooming in and
/// 2000 when zooming out); a larger request gets the most allowed, and,
/// with at least 10 bars loaded, a smaller one gets 10. Nothing else changes.
pub proof fn lemma_zoom_takes_request(s: AppStateView, z: usize)
    ensures
        ({
            let most_in: int = if s.bar_count < 120 { s.bar_count as int } else { 120 };
            let most_out: int = if s.bar_count < 2000 { s.bar_count as int } else { 2000 };
            let zin = next_state(s, Event::ZoomIn(z));
            let zout = next_state(s, Event::ZoomOut(z));
            &&& (10 <= z <= most_in ==> zin.zoom_level == z)
            &&& (z > most_in ==> zin.zoom_level == most_in)
            &&& (z < 10 && 10 <= most_in ==> zin.zoom_level == 10)
            &&& (10 <= z <= most_out ==> zout.zoom_level == z)
            &&& (z > most_out ==> zout.zoom_level == most_out)
            &&& (z < 10 && 10 <= most_out ==> zout.zoom_level == 10)
            &&& zin == AppStateView { zoom_level: zin.zoom_level, ..s }
            &&& zout == AppStateView { zoom_level: zout.zoom_level, ..s }
        }),
{
}

/// Loading `n` bars shows the latest 60 of them, all of them when fewer,
/// but never fewer than 10 bars.
pub proof fn lemma_loaded_bars_zoom(s: AppStateView, n: usize)
    ensures
        next_state(s, Event::DailyBarsLoaded(n)).bar_count == n,
        10 <= n <= 60 ==> next_state(s, Event::DailyBarsLoaded(n)).zoom_level == n,
        n > 60 ==> next_state(s, Event::DailyBarsLoaded(n)).zoom_level == 60,
        n < 10 ==> next_state(s, Event::DailyBarsLoaded(n)).zoom_level == 10,
{
}

/// Panning takes the requested offset when the shown bars then stay within
/// those loaded, and otherwise the largest offset that keeps them there.
pub proof fn lemma_pan_takes_request(s: AppStateView, p: usize)
    ensures
        p + s.zoom_level <= s.bar_count ==> next_state(s, Event::PanTo(p)).pan_offset == p,
        p + s.zoom_level > s.bar_count && s.zoom_level <= s.bar_count ==> next_state(
            s,
            Event::PanTo(p),
        ).pan_offset + s.zoom_level == s.bar_count,
        s.zoom_level > s.bar_count ==> next_state(s, Event::PanTo(p)).pan_offset == 0,
{
}

/// Selecting a search result shows that stock's daily chart over one year
/// and loads its bars: the keyword becomes its name, the results go, and
/// the bars loaded before are dropped.
pub proof fn lemma_select_loads_stock(s: AppStateView, st: Stock)
    ensures
        ({
            let t = next_state(s, Event::SearchResultSelected(st));
            &&& t.selected_stock == Some(st.code)
            &&& t.stock_name == Some(st.name)
            &&& t.stock_exchange == Some(st.exchange)
            &&& t.search_keyword == st.name
            &&& t.search_results.len() == 0
            &&& t.active_panel == Panel::Chart
            &&& t.kline_period == KlinePeriod::Daily
            &&& t.time_range == TimeRange::OneYear
            &&& t.bar_count == 0
            &&& t.watchlist == s.watchlist
            &&& next_command(s, Event::SearchResultSelected(st)) == CommandView::LoadDailyBars(
                st.code@,
                st.exchange,
            )
        }),
{
}

/// Panning keeps the shown bars within those loaded: when the zoom level
/// fits, the offset plus the zoom level is at most the number of bars.
pub proof fn lemma_pan_within_loaded(s: AppStateView, p: usize)
    requires
        s.zoom_level <= s.bar_count,
    ensures
        next_state(s, Event::PanTo(p)).pan_offset + s.zoom_level <= s.bar_count,
{
}

/// Submitting a blank keyword changes nothing and searches nothing.
pub proof fn lemma_blank_search_ignored(s: AppStateView)
    requires
        trimmed(s.search_keyword@).len() == 0,
    ensures
        next_state(s, Event::SearchSubmitted) == s,
        next_command(s, Event::SearchSubmitted) == CommandView::Nothing,
{
}

/// The time range only filters the bars already loaded: changing it
/// changes nothing else and loads nothing.
pub proof fn lemma_time_range_local(s: AppStateView, r: TimeRange)
    ensures
        next_state(s, Event::SetTimeRange(r)) == (AppStateView { time_range: r, ..s }),
        next_command(s, Event::SetTimeRange(r)) == CommandView::Nothing,
{
}

impl AppState {
    /// Whether the selected stock is in the watchlist (shown with a star).
    pub fn selected_in_watchlist(&self) -> (r: bool)
        ensures
            r == (self.selected_stock matches Some(c) && has_code(self.watchlist@, c@)),
    {
        match &self.selected_stock {
            Some(c) => has_code_exec(&self.watchlist, c),
            None => false,
        }
    }

    /// Whether the "add to watchlist" button is offered: a stock is
    /// selected and not yet in the watchlist.
    pub fn can_add_to_watchlist(&self) -> (r: bool)
        ensures
            r == (self.selected_stock is Some && !(self.selected_stock matches Some(c) && has_code(
                self.watchlist@,
                c@,
            ))),
    {
        self.selected_stock.is_some() && !self.selected_in_watchlist()
    }
}

/// The label of a search result: "SZ.000001  平安银行".
pub fn search_result_label(stock: &Stock) -> (r: String)
    ensures
        r@ == exchange_prefix(stock.exchange) + "."@ + stock.code@ + "  "@ + stock.name@,
{
    let mut r = String::from_str(stock.exchange.prefix());
    r.append(".");
    r.append(stock.code.as_str());
    r.append("  ");
    r.append(stock.name.as_str());
    r
}

/// The values that a parameter's "-" and "+" buttons set: one less, but not
/// below `min`, and one more, but not above `max`.
pub fn parameter_steps(value: usize, min: usize, max: usize) -> (r: (usize, usize))
    requires
        value < usize::MAX,
    ensures
        r.0 == max_usize(if value >= 1 { (value - 1) as usize } else { 0 }, min),
        r.1 == min_usize((value + 1) as usize, max),
{
    let down = max_u(value.saturating_sub(1), min);
    let up = min_u(value + 1, max);
    (down, up)
}

} // verus!
