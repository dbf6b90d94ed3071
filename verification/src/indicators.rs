//! Technical indicators: their parameters, names and the bars that each
//! value is computed from. The arithmetic on prices is left to the
//! application, which works in floating point.

use vstd::prelude::*;
use vstd::string::*;
use crate::text::{decimal, decimal_string};

verus! {

/// The bars (`start..end`) that a moving average of `period` bars at bar
/// `i` covers: the `period` bars ending with bar `i`; none while fewer than
/// `period` bars have passed.
pub open spec fn spec_average_window(period: usize, i: usize) -> Option<(usize, usize)> {
    if i + 1 < period {
        None
    } else {
        Some(((i + 1 - period) as usize, (i + 1) as usize))
    }
}

/// The bars (`start..end`) whose change from the bar before enters the
/// relative strength index at bar `i`: the last `period` bars up to `i`;
/// none for the first `period` bars.
pub open spec fn spec_strength_window(period: usize, i: usize) -> Option<(usize, usize)> {
    if i < period {
        None
    } else {
        Some(((i + 1 - period) as usize, (i + 1) as usize))
    }
}

/// `name(n)` for an indicator name and a period.
pub open spec fn named_period(name: Seq<char>, n: nat) -> Seq<char> {
    name + "("@ + decimal(n) + ")"@
}

fn name_with_period(name: &str, n: usize) -> (r: String)
    ensures
        r@ == named_period(name@, n as nat),
{
    let mut r = String::from_str(name);
    r.append("(");
    let d = decimal_string(n as u64);
    r.append(d.as_str());
    r.append(")");
    r
}

/// Simple moving average.
pub struct SMA {
    pub period: usize,
}

/// Exponential moving average.
pub struct EMA {
    pub period: usize,
}

/// Moving average convergence/divergence.
pub struct MACD {
    pub fast: usize,
    pub slow: usize,
    pub signal: usize,
}

/// Relative strength index.
pub struct RSI {
    pub period: usize,
}

impl SMA {
    pub fn name(&self) -> (r: &'static str)
        ensures
            r@ == "SMA"@,
    {
        "SMA"
    }

    /// The name of a computed series, e.g. "SMA(20)".
    pub fn result_name(&self) -> (r: String)
        ensures
            r@ == named_period("SMA"@, self.period as nat),
    {
        name_with_period("SMA", self.period)
    }

    /// The bars whose closes are averaged at bar `i`.
    pub fn window(&self, i: usize) -> (r: Option<(usize, usize)>)
        requires
            i < usize::MAX,
        ensures
            r == spec_average_window(self.period, i),
            r matches Some(w) ==> w.1 - w.0 == self.period && w.1 == i + 1,
    {
        if i + 1 < self.period {
            None
        } else {
            Some((i + 1 - self.period, i + 1))
        }
    }
}

impl EMA {
    pub fn name(&self) -> (r: &'static str)
        ensures
            r@ == "EMA"@,
    {
        "EMA"
    }

    /// The name of a computed series, e.g. "EMA(12)".
    pub fn result_name(&self) -> (r: String)
        ensures
            r@ == named_period("EMA"@, self.period as nat),
    {
        name_with_period("EMA", self.period)
    }
}

impl MACD {
    pub fn name(&self) -> (r: &'static str)
        ensures
            r@ == "MACD"@,
    {
        "MACD"
    }
}

impl RSI {
    pub fn name(&self) -> (r: &'static str)
        ensures
            r@ == "RSI"@,
    {
        "RSI"
    }

    /// The name of a computed series, e.g. "RSI(14)".
    pub fn result_name(&self) -> (r: String)
        ensures
            r@ == named_period("RSI"@, self.period as nat),
    {
        name_with_period("RSI", self.period)
    }

    /// The bars whose change from the bar before is summed at bar `i`; each
    /// of them has a bar before it.
    pub fn window(&self, i: usize) -> (r: Option<(usize, usize)>)
        requires
            i < usize::MAX,
        ensures
            r == spec_strength_window(self.period, i),
            r matches Some(w) ==> w.1 - w.0 == self.period && w.1 == i + 1 && (w.0 < w.1 ==> w.0
                >= 1),
    {
        if i < self.period {
            None
        } else {
            Some((i + 1 - self.period, i + 1))
        }
    }
}

/// Whether a moving-average series of `period` bars has values at all: it
/// is empty when there are no bars or the period is 0.
pub fn average_series_empty(bars: usize, period: usize) -> (r: bool)
    ensures
        r == (bars == 0 || period == 0),
{
    bars == 0 || period == 0
}

/// The indicators that can be shown.
#[derive(Debug, Clone, Copy, PartialEq, Eq, Structural)]
pub enum IndicatorType {
    /// Overlays on the K-line chart
    BollingerBands,
    /// Sub-panel indicators (rendered below the main chart)
    KDJ,
    RSI,
    MACD,
}

pub open spec fn indicator_label(t: IndicatorType) -> Seq<char> {
    match t {
        IndicatorType::BollingerBands => "BOLL(20,2)"@,
        IndicatorType::KDJ => "KDJ(9,3,3)"@,
        IndicatorType::RSI => "RSI(14)"@,
        IndicatorType::MACD => "MACD(12,26,9)"@,
    }
}

impl IndicatorType {
    pub fn label(&self) -> (r: &'static str)
        ensures
            r@ == indicator_label(*self),
    {
        match self {
            IndicatorType::BollingerBands => "BOLL(20,2)",
            IndicatorType::KDJ => "KDJ(9,3,3)",
            IndicatorType::RSI => "RSI(14)",
            IndicatorType::MACD => "MACD(12,26,9)",
        }
    }

    /// Whether the indicator is drawn over the K-line chart.
    pub fn is_chart_overlay(&self) -> (r: bool)
        ensures
            r == (*self == IndicatorType::BollingerBands),
    {
        match self {
            IndicatorType::BollingerBands => true,
            _ => false,
        }
    }

    /// Whether the indicator needs a panel of its own.
    pub fn is_sub_panel(&self) -> (r: bool)
        ensures
            r == (*self != IndicatorType::BollingerBands),
    {
        !self.is_chart_overlay()
    }
}

/// The active indicators after toggling `t`: switched off (its first
/// occurrence removed) when it is on, switched on (appended) otherwise.
pub open spec fn toggled(active: Seq<IndicatorType>, t: IndicatorType) -> Seq<IndicatorType> {
    match active.index_of_first(t) {
        Some(i) => active.remove(i),
        None => active.push(t),
    }
}

/// Switches an indicator on or off.
pub fn toggle_indicator(active: &mut Vec<IndicatorType>, t: IndicatorType)
    ensures
        final(active)@ == toggled(old(active)@, t),
{
    let n = active.len();
    let mut i: usize = 0;
    while i < n
        invariant
            n == active@.len(),
            active@ == old(active)@,
            i <= n,
            forall|j: int| 0 <= j < i ==> active@[j] != t,
        decreases n - i,
    {
        if active[i] == t {
            proof {
                assert(active@[i as int] == t);
                active@.index_of_first_ensures(t);
            }
            active.remove(i);
            return;
        }
        i = i + 1;
    }
    proof {
        active@.index_of_first_ensures(t);
    }
    active.push(t);
}

/// Toggling an indicator twice, starting from off, leaves the active
/// indicators as they were.
pub proof fn lemma_toggle_twice_off(active: Seq<IndicatorType>, t: IndicatorType)
    requires
        !active.contains(t),
    ensures
        toggled(toggled(active, t), t) == active,
{
    let a = active.push(t);
    active.index_of_first_ensures(t);
    a.index_of_first_ensures(t);
    assert(a[active.len() as int] == t);
    assert(a.remove(active.len() as int) =~= active);
}

} // verus!
