//! Chart windowing and K-line aggregation.
//!
//! Which bars the candlestick chart shows, where hovering lands, how the
//! x-axis labels are spaced, which bars a moving average covers, and how
//! daily bars are grouped into weekly, monthly and yearly bars.

use vstd::prelude::*;
use vstd::string::*;
use crate::model::{Date, KlinePeriod};
use crate::calendar::{chrono_iso_week, epoch_number, iso_week, lemma_epoch_number_order};

verus! {

/// How many bars the chart shows at a zoom level: at least 10, and at most
/// all the bars there are (or 10, when there are fewer).
pub open spec fn spec_visible_count(zoom_level: usize, total: usize) -> usize {
    let lo = if zoom_level >= 10 { zoom_level } else { 10 };
    let cap = if total >= 10 { total } else { 10 };
    if lo <= cap { lo } else { cap }
}

/// The chart's window of bars, `(start, end)`: the `visible` bars that end
/// `scroll_offset` bars before the latest one, cut at the first bar.
pub open spec fn spec_visible_window(total: usize, scroll_offset: usize, visible: usize) -> (usize, usize) {
    let end: int = if total >= scroll_offset { total - scroll_offset } else { 0 };
    let start: int = if end >= visible { end - visible } else { 0 };
    (start as usize, end as usize)
}

pub fn visible_count(zoom_level: usize, total: usize) -> (r: usize)
    ensures
        r == spec_visible_count(zoom_level, total),
        10 <= r,
{
    let lo = if zoom_level >= 10 { zoom_level } else { 10 };
    let cap = if total >= 10 { total } else { 10 };
    if lo <= cap { lo } else { cap }
}

/// The window of bars that the chart shows, as indices `start..end` into
/// all the bars; empty when `start == end`.
pub fn visible_window(total: usize, scroll_offset: usize, visible: usize) -> (r: (usize, usize))
    ensures
        r == spec_visible_window(total, scroll_offset, visible),
        r.0 <= r.1 <= total,
        r.1 - r.0 <= visible,
{
    let end = total.saturating_sub(scroll_offset);
    let start = end.saturating_sub(visible);
    (start, end)
}

/// The index, among all bars, of the `idx`-th bar of the window; none when
/// the window has fewer bars.
pub fn hovered_global_index(window: (usize, usize), idx: usize) -> (r: Option<usize>)
    requires
        window.0 <= window.1,
    ensures
        idx < window.1 - window.0 ==> r == Some((window.0 + idx) as usize),
        idx >= window.1 - window.0 ==> r is None,
{
    if idx < window.1 - window.0 {
        Some(window.0 + idx)
    } else {
        None
    }
}

/// The position within the window of the bar with global index `hovered`;
/// none when that bar is outside the window.
pub fn hovered_local_index(window: (usize, usize), hovered: usize) -> (r: Option<usize>)
    ensures
        window.0 <= hovered < window.1 ==> r == Some((hovered - window.0) as usize),
        !(window.0 <= hovered < window.1) ==> r is None,
{
    if window.0 <= hovered && hovered < window.1 {
        Some(hovered - window.0)
    } else {
        None
    }
}

/// The step between labelled bars on the x-axis: between 4 and 10 labels
/// are aimed at, and every bar may be labelled.
pub open spec fn spec_x_label_step(bars: usize) -> usize {
    let count: int = if bars < 4 { 4 } else if bars > 10 { 10 } else { bars as int };
    let step = bars as int / count;
    if step >= 1 { step as usize } else { 1 }
}

pub fn x_label_step(bars: usize) -> (r: usize)
    ensures
        r == spec_x_label_step(bars),
        r >= 1,
{
    let count = if bars < 4 { 4 } else if bars > 10 { 10 } else { bars };
    let step = bars / count;
    if step >= 1 { step } else { 1 }
}

/// Whether day `a` comes before day `b`.
pub open spec fn date_before(a: Date, b: Date) -> bool {
    a.year < b.year || (a.year == b.year && (a.month < b.month || (a.month == b.month && a.day
        < b.day)))
}

/// The indices, in order, of the first `n` bars whose day is not before
/// `cutoff` (all of them when there is no cutoff).
pub open spec fn bars_since(dates: Seq<Date>, cutoff: Option<Date>, n: int) -> Seq<usize>
    decreases n,
{
    if n <= 0 {
        Seq::empty()
    } else {
        let prev = bars_since(dates, cutoff, n - 1);
        match cutoff {
            Some(c) => if date_before(dates[n - 1], c) {
                prev
            } else {
                prev.push((n - 1) as usize)
            },
            None => prev.push((n - 1) as usize),
        }
    }
}

fn is_before(a: &Date, b: &Date) -> (r: bool)
    ensures
        r == date_before(*a, *b),
{
    a.year < b.year || (a.year == b.year && (a.month < b.month || (a.month == b.month && a.day
        < b.day)))
}

/// The bars that a time range shows: the indices of those whose day is on
/// or after `cutoff`, in order; every bar when there is no cutoff.
pub fn bars_in_range(dates: &Vec<Date>, cutoff: Option<Date>) -> (r: Vec<usize>)
    ensures
        r@ == bars_since(dates@, cutoff, dates@.len() as int),
{
    let n = dates.len();
    let mut r: Vec<usize> = Vec::new();
    let mut i: usize = 0;
    while i < n
        invariant
            n == dates@.len(),
            i <= n,
            r@ == bars_since(dates@, cutoff, i as int),
        decreases n - i,
    {
        let keep = match &cutoff {
            Some(c) => !is_before(&dates[i], c),
            None => true,
        };
        if keep {
            r.push(i);
        }
        i = i + 1;
    }
    r
}

/// Whether two days fall in the same period: the same ISO week (chrono's
/// ISO week-year and week number), the same month of the same year, or the
/// same year.
pub open spec fn same_period(a: Date, b: Date, period: KlinePeriod) -> bool {
    match period {
        KlinePeriod::Weekly => chrono_iso_week(a.year, a.month, a.day)->0 == chrono_iso_week(
            b.year,
            b.month,
            b.day,
        )->0,
        KlinePeriod::Monthly => a.year == b.year && a.month == b.month,
        KlinePeriod::Yearly => a.year == b.year,
        KlinePeriod::Daily => a == b,
    }
}

/// The bars of each group fall in one period, and neighbouring groups fall
/// in different periods.
pub open spec fn groups_follow_periods(dates: Seq<Date>, period: KlinePeriod, groups: Seq<(usize, usize)>) -> bool {
    &&& forall|j: int, t: int|
        0 <= j < groups.len() && groups[j].0 <= t < groups[j].1 ==> same_period(
            #[trigger] dates[t],
            #[trigger] dates[groups[j].0 as int],
            period,
        )
    &&& forall|j: int|
        0 <= j < groups.len() - 1 ==> !same_period(
            dates[#[trigger] groups[j].0 as int],
            dates[groups[j + 1].0 as int],
            period,
        )
}

/// The key that groups a bar's date into a longer period: the ISO week
/// (year and week), the month (year and month) or the year.
pub open spec fn period_key(d: Date, period: KlinePeriod) -> (i32, u32) {
    match period {
        KlinePeriod::Weekly => chrono_iso_week(d.year, d.month, d.day)->0,
        KlinePeriod::Monthly => (d.year, d.month),
        _ => (d.year, 0),
    }
}

pub open spec fn period_keys(dates: Seq<Date>, period: KlinePeriod) -> Seq<(i32, u32)> {
    dates.map_values(|d: Date| period_key(d, period))
}

/// Whether the non-empty range `r` holds one key throughout.
pub open spec fn uniform_run(keys: Seq<(i32, u32)>, r: (usize, usize)) -> bool {
    &&& r.0 < r.1
    &&& forall|t: int| r.0 <= t < r.1 ==> #[trigger] keys[t] == keys[r.0 as int]
}

/// Whether group `i` ends where group `i + 1` starts, and the two have
/// different keys.
pub open spec fn adjacent_runs(groups: Seq<(usize, usize)>, keys: Seq<(i32, u32)>, i: int) -> bool {
    &&& groups[i].1 == groups[i + 1].0
    &&& keys[groups[i].0 as int] != keys[groups[i + 1].0 as int]
}

/// `groups` splits `0..n` into maximal runs of equal keys: consecutive,
/// non-empty, each of one key, neighbours of different keys.
pub open spec fn splits_into_runs(groups: Seq<(usize, usize)>, keys: Seq<(i32, u32)>, n: int) -> bool {
    &&& (groups.len() == 0 <==> n == 0)
    &&& groups.len() > 0 ==> groups[0].0 == 0 && groups.last().1 == n
    &&& forall|i: int| 0 <= i < groups.len() ==> uniform_run(keys, #[trigger] groups[i])
    &&& forall|i: int| 0 <= i < groups.len() - 1 ==> #[trigger] adjacent_runs(groups, keys, i)
}

/// `groups` splits all of `keys` into its maximal runs of equal keys.
pub open spec fn is_run_split(groups: Seq<(usize, usize)>, keys: Seq<(i32, u32)>) -> bool {
    splits_into_runs(groups, keys, keys.len() as int)
}

/// The daily split: every bar on its own.
pub open spec fn singletons(n: nat) -> Seq<(usize, usize)> {
    Seq::new(n, |i: int| (i as usize, (i + 1) as usize))
}

fn key_of(d: &Date, period: KlinePeriod) -> (r: (i32, u32))
    requires
        d.is_real(),
    ensures
        r == period_key(*d, period),
{
    match period {
        KlinePeriod::Weekly => match iso_week(d.year, d.month, d.day) {
            Some(w) => w,
            None => (0, 0),
        },
        KlinePeriod::Monthly => (d.year, d.month),
        _ => (d.year, 0),
    }
}

proof fn lemma_run_starts(g: Seq<(usize, usize)>, start: usize, j: usize, keys: Seq<(i32, u32)>)
    requires
        start < j < keys.len(),
        keys.len() <= usize::MAX,
        splits_into_runs(g.push((start, j)), keys, j as int),
        keys[j as int] != keys[start as int],
    ensures
        splits_into_runs(g.push((start, j)).push((j, (j + 1) as usize)), keys, j + 1),
{
    let g0 = g.push((start, j));
    let g1 = g0.push((j, (j + 1) as usize));
    assert forall|i: int| 0 <= i < g1.len() implies uniform_run(keys, #[trigger] g1[i]) by {
        if i < g1.len() - 1 {
            assert(g0[i] == g1[i]);
        } else {
            assert forall|t: int| g1[i].0 <= t < g1[i].1 implies #[trigger] keys[t] == keys[g1[i].0 as int] by {
                assert(t == j);
            }
        }
    }
    assert forall|i: int| 0 <= i < g1.len() - 1 implies #[trigger] adjacent_runs(g1, keys, i) by {
        assert(g0[i] == g1[i]);
        if i < g1.len() - 2 {
            assert(adjacent_runs(g0, keys, i));
            assert(g0[i + 1] == g1[i + 1]);
        }
    }
}

proof fn lemma_run_grows(g: Seq<(usize, usize)>, start: usize, j: usize, keys: Seq<(i32, u32)>)
    requires
        start < j < keys.len(),
        keys.len() <= usize::MAX,
        splits_into_runs(g.push((start, j)), keys, j as int),
        keys[j as int] == keys[start as int],
    ensures
        splits_into_runs(g.push((start, (j + 1) as usize)), keys, j + 1),
{
    let g0 = g.push((start, j));
    let g1 = g.push((start, (j + 1) as usize));
    assert(uniform_run(keys, g0[g0.len() - 1]));
    assert forall|i: int| 0 <= i < g1.len() implies uniform_run(keys, #[trigger] g1[i]) by {
        if i < g1.len() - 1 {
            assert(g0[i] == g1[i]);
        } else {
            assert forall|t: int| g1[i].0 <= t < g1[i].1 implies #[trigger] keys[t] == keys[g1[i].0 as int] by {
                if t < j {
                    assert(g0[i].0 <= t < g0[i].1);
                }
            }
        }
    }
    assert forall|i: int| 0 <= i < g1.len() - 1 implies #[trigger] adjacent_runs(g1, keys, i) by {
        assert(adjacent_runs(g0, keys, i));
        assert(g0[i] == g1[i]);
        assert(g0[i + 1].0 == g1[i + 1].0);
    }
}

fn split_runs(keys: &Vec<(i32, u32)>) -> (groups: Vec<(usize, usize)>)
    ensures
        is_run_split(groups@, keys@),
{
    let n = keys.len();
    let mut groups: Vec<(usize, usize)> = Vec::new();
    if n == 0 {
        return groups;
    }
    let mut start: usize = 0;
    let mut j: usize = 1;
    assert(uniform_run(keys@, groups@.push((0usize, 1usize))[0]));
    while j < n
        invariant
            n == keys@.len(),
            0 <= start < j <= n,
            splits_into_runs(groups@.push((start, j)), keys@, j as int),
        decreases n - j,
    {
        if keys[j].0 != keys[start].0 || keys[j].1 != keys[start].1 {
            proof {
                lemma_run_starts(groups@, start, j, keys@);
            }
            groups.push((start, j));
            start = j;
        } else {
            proof {
                lemma_run_grows(groups@, start, j, keys@);
            }
        }
        j = j + 1;
    }
    groups.push((start, n));
    groups
}

/// Groups bars into the bars of a longer period: for each group, the
/// indices `start..end` of the daily bars it merges. Daily bars stay as they
/// are; weekly, monthly and yearly bars merge each maximal run of
/// consecutive bars that fall in the same ISO week, month or year.
pub fn aggregation_groups(dates: &Vec<Date>, period: KlinePeriod) -> (groups: Vec<(usize, usize)>)
    requires
        forall|i: int| 0 <= i < dates@.len() ==> (#[trigger] dates@[i]).is_real(),
    ensures
        period == KlinePeriod::Daily ==> groups@ == singletons(dates@.len()),
        period != KlinePeriod::Daily ==> is_run_split(groups@, period_keys(dates@, period)),
        period != KlinePeriod::Daily ==> groups_follow_periods(dates@, period, groups@),
{
    let n = dates.len();
    if period == KlinePeriod::Daily {
        let mut groups: Vec<(usize, usize)> = Vec::new();
        let mut i: usize = 0;
        while i < n
            invariant
                n == dates@.len(),
                i <= n,
                groups@ == singletons(i as nat),
            decreases n - i,
        {
            groups.push((i, i + 1));
            assert(groups@ =~= singletons((i + 1) as nat));
            i = i + 1;
        }
        return groups;
    }
    let mut keys: Vec<(i32, u32)> = Vec::new();
    let mut i: usize = 0;
    while i < n
        invariant
            n == dates@.len(),
            i <= n,
            forall|t: int| 0 <= t < dates@.len() ==> (#[trigger] dates@[t]).is_real(),
            keys@ == period_keys(dates@.take(i as int), period),
        decreases n - i,
    {
        let k = key_of(&dates[i], period);
        keys.push(k);
        assert(keys@ =~= period_keys(dates@.take(i + 1), period));
        i = i + 1;
    }
    assert(dates@.take(n as int) =~= dates@);
    let groups = split_runs(&keys);
    proof {
        lemma_groups_are_periods(dates@, period, groups@);
    }
    groups
}

/// The index of the first space at or after `from`, or the length of `s`
/// when there is none.
pub open spec fn next_space(s: Seq<char>, from: int) -> int
    decreases s.len() - from,
{
    if from >= s.len() {
        s.len() as int
    } else if s[from] == ' ' {
        from
    } else {
        next_space(s, from + 1)
    }
}

/// The time shown for an intraday bar's "date time" text: the field after
/// the first space (up to the next space), or the whole text when it has
/// no space.
pub open spec fn spec_time_label(s: Seq<char>) -> Seq<char> {
    let p = next_space(s, 0);
    if p >= s.len() {
        s
    } else {
        s.subrange(p + 1, next_space(s, p + 1))
    }
}

proof fn lemma_next_space_bounds(s: Seq<char>, from: int)
    requires
        0 <= from,
    ensures
        from <= s.len() ==> from <= next_space(s, from) <= s.len(),
        from > s.len() ==> next_space(s, from) == s.len(),
    decreases s.len() - from,
{
    if from < s.len() && s[from] != ' ' {
        lemma_next_space_bounds(s, from + 1);
    }
}

fn find_space(s: &str, from: usize) -> (r: usize)
    requires
        from <= s@.len(),
    ensures
        r == next_space(s@, from as int),
{
    let n = s.unicode_len();
    let mut i = from;
    while i < n
        invariant
            n == s@.len(),
            from <= i <= n,
            next_space(s@, from as int) == next_space(s@, i as int),
        decreases n - i,
    {
        if s.get_char(i) == ' ' {
            return i;
        }
        i = i + 1;
    }
    i
}

/// The time shown under the intraday chart for a bar's "date time" text,
/// e.g. "09:31" for "2026-07-01 09:31".
pub fn time_label(datetime: &str) -> (r: String)
    ensures
        r@ == spec_time_label(datetime@),
{
    let n = datetime.unicode_len();
    let p = find_space(datetime, 0);
    if p >= n {
        return String::from_str(datetime);
    }
    let q = find_space(datetime, p + 1);
    proof {
        lemma_next_space_bounds(datetime@, (p + 1) as int);
    }
    String::from_str(datetime.substring_char(p + 1, q))
}

proof fn lemma_cover_from(groups: Seq<(usize, usize)>, keys: Seq<(i32, u32)>, i: int, t: int)
    requires
        splits_into_runs(groups, keys, keys.len() as int),
        0 <= i < groups.len(),
        groups[i].0 <= t < keys.len(),
    ensures
        exists|j: int| 0 <= j < groups.len() && (#[trigger] groups[j]).0 <= t < groups[j].1,
    decreases groups.len() - i,
{
    if t >= groups[i].1 {
        if i == groups.len() - 1 {
            assert(groups.last() == groups[i]);
        } else {
            assert(adjacent_runs(groups, keys, i));
            lemma_cover_from(groups, keys, i + 1, t);
        }
    }
}

/// Aggregation loses no bar: every bar belongs to one of the groups.
pub proof fn lemma_groups_cover_bars(groups: Seq<(usize, usize)>, keys: Seq<(i32, u32)>, t: int)
    requires
        is_run_split(groups, keys),
        0 <= t < keys.len(),
    ensures
        exists|j: int| 0 <= j < groups.len() && (#[trigger] groups[j]).0 <= t < groups[j].1,
{
    lemma_cover_from(groups, keys, 0, t);
}

proof fn lemma_group_ends_within(groups: Seq<(usize, usize)>, keys: Seq<(i32, u32)>, j: int)
    requires
        splits_into_runs(groups, keys, keys.len() as int),
        0 <= j < groups.len(),
    ensures
        groups[j].1 <= keys.len(),
    decreases groups.len() - j,
{
    if j == groups.len() - 1 {
        assert(groups.last() == groups[j]);
    } else {
        assert(adjacent_runs(groups, keys, j));
        assert(uniform_run(keys, groups[j + 1]));
        lemma_group_ends_within(groups, keys, j + 1);
    }
}

/// A weekly, monthly or yearly split puts together exactly the neighbouring
/// bars of one ISO week, month or year: the bars of a group share their
/// period, and each group starts a new period.
pub proof fn lemma_groups_are_periods(dates: Seq<Date>, period: KlinePeriod, groups: Seq<(usize, usize)>)
    requires
        period != KlinePeriod::Daily,
        is_run_split(groups, period_keys(dates, period)),
    ensures
        groups_follow_periods(dates, period, groups),
{
    let keys = period_keys(dates, period);
    assert forall|j: int, t: int|
        0 <= j < groups.len() && groups[j].0 <= t < groups[j].1 implies same_period(
            #[trigger] dates[t],
            #[trigger] dates[groups[j].0 as int],
            period,
        ) by {
        lemma_group_ends_within(groups, keys, j);
        assert(uniform_run(keys, groups[j]));
        assert(keys[t] == keys[groups[j].0 as int]);
    }
    assert forall|j: int| 0 <= j < groups.len() - 1 implies !same_period(
        dates[#[trigger] groups[j].0 as int],
        dates[groups[j + 1].0 as int],
        period,
    ) by {
        lemma_group_ends_within(groups, keys, j + 1);
        assert(adjacent_runs(groups, keys, j));
        assert(uniform_run(keys, groups[j]));
        assert(uniform_run(keys, groups[j + 1]));
    }
}

/// For real days, "before" is the calendar's order: a day comes before
/// another exactly when its day number is smaller.
pub proof fn lemma_date_before_is_calendar_order(a: Date, b: Date)
    requires
        a.is_real(),
        b.is_real(),
    ensures
        date_before(a, b) <==> epoch_number(a) < epoch_number(b),
{
    if date_before(a, b) {
        lemma_epoch_number_order(a, b);
    } else if a != b {
        lemma_epoch_number_order(b, a);
    }
}

/// Whether bar `i` is on or after the cutoff, if there is one.
pub open spec fn kept_by(dates: Seq<Date>, c: Option<Date>, i: int) -> bool {
    match c {
        Some(cd) => !date_before(dates[i], cd),
        None => true,
    }
}

proof fn lemma_bars_since_members(dates: Seq<Date>, c: Option<Date>, n: int)
    requires
        0 <= n <= dates.len(),
        dates.len() <= usize::MAX,
    ensures
        forall|k: int|
            0 <= k < bars_since(dates, c, n).len() ==> #[trigger] bars_since(dates, c, n)[k] < n,
        forall|k: int, l: int|
            0 <= k < l < bars_since(dates, c, n).len() ==> #[trigger] bars_since(dates, c, n)[k]
                < #[trigger] bars_since(dates, c, n)[l],
        forall|i: int|
            0 <= i < n ==> (bars_since(dates, c, n).contains(i as usize) <==> #[trigger] kept_by(
                dates,
                c,
                i,
            )),
    decreases n,
{
    if n > 0 {
        lemma_bars_since_members(dates, c, n - 1);
        let prev = bars_since(dates, c, n - 1);
        let cur = bars_since(dates, c, n);
        let keep = kept_by(dates, c, n - 1);
        assert(cur == if keep { prev.push((n - 1) as usize) } else { prev });
        assert forall|i: int| 0 <= i < n implies (cur.contains(i as usize) <==> #[trigger] kept_by(
            dates,
            c,
            i,
        )) by {
            if keep {
                assert(cur[prev.len() as int] == (n - 1) as usize);
                if cur.contains(i as usize) {
                    let k = choose|k: int| 0 <= k < cur.len() && cur[k] == i as usize;
                    if k < prev.len() {
                        assert(prev[k] == cur[k]);
                    }
                }
                if i < n - 1 && prev.contains(i as usize) {
                    let k = choose|k: int| 0 <= k < prev.len() && prev[k] == i as usize;
                    assert(cur[k] == prev[k]);
                }
            } else {
                if i == n - 1 && prev.contains(i as usize) {
                    let k = choose|k: int| 0 <= k < prev.len() && prev[k] == i as usize;
                    assert(prev[k] < n - 1);
                }
            }
        }
        if keep {
            assert forall|k: int, l: int| 0 <= k < l < cur.len() implies #[trigger] cur[k]
                < #[trigger] cur[l] by {
                if l == prev.len() {
                    assert(prev[k] < n - 1);
                } else {
                    assert(cur[k] == prev[k] && cur[l] == prev[l]);
                }
            }
        }
    }
}

/// A time range keeps exactly the bars whose day is on or after the
/// cutoff day, in their order: bar `i` is kept when its day number is at
/// least the cutoff's.
pub proof fn lemma_range_keeps_days_from_cutoff(dates: Seq<Date>, cutoff: Date)
    requires
        dates.len() <= usize::MAX,
        cutoff.is_real(),
        forall|i: int| 0 <= i < dates.len() ==> (#[trigger] dates[i]).is_real(),
    ensures
        forall|i: int|
            0 <= i < dates.len() ==> (bars_since(dates, Some(cutoff), dates.len() as int).contains(
                i as usize,
            ) <==> epoch_number(#[trigger] dates[i]) >= epoch_number(cutoff)),
        forall|k: int, l: int|
            0 <= k < l < bars_since(dates, Some(cutoff), dates.len() as int).len() ==> #[trigger] bars_since(
                dates,
                Some(cutoff),
                dates.len() as int,
            )[k] < #[trigger] bars_since(dates, Some(cutoff), dates.len() as int)[l],
{
    lemma_bars_since_members(dates, Some(cutoff), dates.len() as int);
    assert forall|i: int| 0 <= i < dates.len() implies (bars_since(
        dates,
        Some(cutoff),
        dates.len() as int,
    ).contains(i as usize) <==> epoch_number(#[trigger] dates[i]) >= epoch_number(cutoff)) by {
        assert(kept_by(dates, Some(cutoff), i) == !date_before(dates[i], cutoff));
        lemma_date_before_is_calendar_order(dates[i], cutoff);
    }
}

/// The chart's window ends `scroll_offset` bars before the end (at the
/// start when that is all of them) and holds `visible` bars, or every bar
/// up to its end when there are fewer.
pub proof fn lemma_window_shape(total: usize, scroll_offset: usize, visible: usize)
    ensures
        ({
            let w = spec_visible_window(total, scroll_offset, visible);
            &&& (scroll_offset <= total ==> w.1 + scroll_offset == total)
            &&& (scroll_offset > total ==> w.1 == 0)
            &&& (w.1 >= visible ==> w.1 - w.0 == visible)
            &&& (w.1 < visible ==> w.0 == 0)
        }),
{
}

} // verus!
