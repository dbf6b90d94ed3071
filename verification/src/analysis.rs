//! Financial-health scoring.
//!
//! A report and its valuation ratios are first graded metric by metric
//! (each grade names the threshold band that the metric falls into); the
//! score, its summary and its explanatory details follow from the grades.

use vstd::prelude::*;
use vstd::string::*;
use crate::model::FinancialHealth;

verus! {

/// Band of return on equity (ROE, in percent).
#[derive(Debug, Clone, Copy, PartialEq, Eq, Structural)]
pub enum RoeGrade {
    /// ROE > 20
    Above20,
    /// 15 < ROE <= 20
    Above15,
    /// 10 < ROE <= 15
    Above10,
    /// 5 <= ROE <= 10, or ROE unknown
    Middle,
    /// ROE < 5
    Below5,
}

/// Band of net margin (in percent).
#[derive(Debug, Clone, Copy, PartialEq, Eq, Structural)]
pub enum MarginGrade {
    /// margin > 20
    Above20,
    /// 10 < margin <= 20
    Above10,
    /// margin <= 10, or unknown
    Other,
}

/// Band of the price/earnings ratio.
#[derive(Debug, Clone, Copy, PartialEq, Eq, Structural)]
pub enum PeGrade {
    /// PE < 15
    Below15,
    /// PE > 50
    Above50,
    /// 15 <= PE <= 50, or unknown
    Other,
}

/// Band of the price/book ratio.
#[derive(Debug, Clone, Copy, PartialEq, Eq, Structural)]
pub enum PbGrade {
    /// PB < 2
    Below2,
    /// PB > 10
    Above10,
    /// 2 <= PB <= 10, or unknown
    Other,
}

/// Band of the debt ratio (liabilities / assets, with positive assets).
#[derive(Debug, Clone, Copy, PartialEq, Eq, Structural)]
pub enum DebtGrade {
    /// ratio < 0.3
    Below30,
    /// 0.3 <= ratio < 0.5
    Below50,
    /// ratio > 0.7
    Above70,
    /// 0.5 <= ratio <= 0.7, or not computable
    Other,
}

/// Band of operating cash flow against net profit.
#[derive(Debug, Clone, Copy, PartialEq, Eq, Structural)]
pub enum CashFlowGrade {
    /// positive net profit and operating cash flow above 0.8 times it
    Strong,
    /// anything else
    Other,
}

/// The grades of one report and its valuation ratios.
#[derive(Debug, Clone, Copy, PartialEq, Eq, Structural)]
pub struct HealthGrades {
    pub roe: RoeGrade,
    pub net_margin: MarginGrade,
    pub pe: PeGrade,
    pub pb: PbGrade,
    pub debt: DebtGrade,
    pub cash_flow: CashFlowGrade,
}

pub open spec fn roe_points(g: RoeGrade) -> int {
    match g {
        RoeGrade::Above20 => 15,
        RoeGrade::Above15 => 10,
        RoeGrade::Above10 => 5,
        RoeGrade::Middle => 0,
        RoeGrade::Below5 => -10,
    }
}

pub open spec fn margin_points(g: MarginGrade) -> int {
    match g {
        MarginGrade::Above20 => 10,
        MarginGrade::Above10 => 5,
        MarginGrade::Other => 0,
    }
}

pub open spec fn pe_points(g: PeGrade) -> int {
    match g {
        PeGrade::Below15 => 5,
        PeGrade::Above50 => -5,
        PeGrade::Other => 0,
    }
}

pub open spec fn pb_points(g: PbGrade) -> int {
    match g {
        PbGrade::Below2 => 5,
        PbGrade::Above10 => -5,
        PbGrade::Other => 0,
    }
}

pub open spec fn debt_points(g: DebtGrade) -> int {
    match g {
        DebtGrade::Below30 => 10,
        DebtGrade::Below50 => 5,
        DebtGrade::Above70 => -10,
        DebtGrade::Other => 0,
    }
}

pub open spec fn cash_flow_points(g: CashFlowGrade) -> int {
    match g {
        CashFlowGrade::Strong => 10,
        CashFlowGrade::Other => 0,
    }
}

/// The raw total: 50 points plus the points of every grade.
pub open spec fn health_total(g: HealthGrades) -> int {
    50 + roe_points(g.roe) + margin_points(g.net_margin) + pe_points(g.pe) + pb_points(g.pb)
        + debt_points(g.debt) + cash_flow_points(g.cash_flow)
}

/// The score: the raw total, capped at 100.
pub open spec fn health_score(g: HealthGrades) -> int {
    if health_total(g) > 100 {
        100
    } else {
        health_total(g)
    }
}

/// The summary line for a score.
pub open spec fn health_summary(score: int) -> Seq<char> {
    if score >= 80 {
        "Excellent financial health"@
    } else if score >= 65 {
        "Good financial health"@
    } else if score >= 50 {
        "Average financial health"@
    } else if score >= 35 {
        "Below average financial health"@
    } else {
        "Poor financial health, invest with caution"@
    }
}

pub open spec fn roe_details(g: RoeGrade) -> Seq<Seq<char>> {
    match g {
        RoeGrade::Above20 => seq!["ROE > 20%, excellent profitability"@],
        RoeGrade::Above15 => seq!["ROE > 15%, good profitability"@],
        RoeGrade::Above10 => seq!["ROE > 10%, adequate profitability"@],
        RoeGrade::Middle => seq![],
        RoeGrade::Below5 => seq!["ROE < 5%, low profitability"@],
    }
}

pub open spec fn margin_details(g: MarginGrade) -> Seq<Seq<char>> {
    match g {
        MarginGrade::Above20 => seq!["Net margin > 20%, strong pricing power"@],
        _ => seq![],
    }
}

pub open spec fn pe_details(g: PeGrade) -> Seq<Seq<char>> {
    match g {
        PeGrade::Below15 => seq!["PE < 15, potentially undervalued"@],
        PeGrade::Above50 => seq!["PE > 50, potentially overvalued"@],
        PeGrade::Other => seq![],
    }
}

pub open spec fn debt_details(g: DebtGrade) -> Seq<Seq<char>> {
    match g {
        DebtGrade::Below30 => seq!["Low debt ratio, financially conservative"@],
        DebtGrade::Above70 => seq!["High debt ratio, financial risk"@],
        _ => seq![],
    }
}

pub open spec fn cash_flow_details(g: CashFlowGrade) -> Seq<Seq<char>> {
    match g {
        CashFlowGrade::Strong => seq!["Strong operating cash flow"@],
        CashFlowGrade::Other => seq![],
    }
}

/// The explanatory details, in the order in which the metrics are examined.
pub open spec fn health_details(g: HealthGrades) -> Seq<Seq<char>> {
    roe_details(g.roe) + margin_details(g.net_margin) + pe_details(g.pe) + debt_details(g.debt)
        + cash_flow_details(g.cash_flow)
}

/// The text views of a vector of strings.
pub open spec fn string_views(v: Seq<String>) -> Seq<Seq<char>> {
    v.map_values(|s: String| s@)
}

/// Financial-health scoring based on fundamentals.
#[derive(Debug, Clone, Copy)]
pub struct FinancialAnalyzer;

fn push_detail(details: &mut Vec<String>, text: &str)
    ensures
        string_views(final(details)@) == string_views(old(details)@).push(text@),
{
    let ghost before = details@;
    details.push(String::from_str(text));
    assert(string_views(details@) =~= string_views(before).push(text@));
}

fn apply_roe(score: &mut u8, details: &mut Vec<String>, g: RoeGrade)
    requires
        *old(score) == 50,
    ensures
        *final(score) as int == 50 + roe_points(g),
        string_views(final(details)@) == string_views(old(details)@) + roe_details(g),
{
    let ghost before = string_views(details@);
    match g {
        RoeGrade::Above20 => {
            *score = *score + 15;
            push_detail(details, "ROE > 20%, excellent profitability");
        },
        RoeGrade::Above15 => {
            *score = *score + 10;
            push_detail(details, "ROE > 15%, good profitability");
        },
        RoeGrade::Above10 => {
            *score = *score + 5;
            push_detail(details, "ROE > 10%, adequate profitability");
        },
        RoeGrade::Below5 => {
            *score = score.saturating_sub(10);
            push_detail(details, "ROE < 5%, low profitability");
        },
        RoeGrade::Middle => {},
    }
    assert(string_views(details@) =~= before + roe_details(g));
}

fn apply_margin(score: &mut u8, details: &mut Vec<String>, g: MarginGrade)
    requires
        40 <= *old(score) <= 65,
    ensures
        *final(score) as int == *old(score) as int + margin_points(g),
        string_views(final(details)@) == string_views(old(details)@) + margin_details(g),
{
    let ghost before = string_views(details@);
    match g {
        MarginGrade::Above20 => {
            *score = *score + 10;
            push_detail(details, "Net margin > 20%, strong pricing power");
        },
        MarginGrade::Above10 => {
            *score = *score + 5;
        },
        MarginGrade::Other => {},
    }
    assert(string_views(details@) =~= before + margin_details(g));
}

fn apply_pe(score: &mut u8, details: &mut Vec<String>, g: PeGrade)
    requires
        40 <= *old(score) <= 75,
    ensures
        *final(score) as int == *old(score) as int + pe_points(g),
        string_views(final(details)@) == string_views(old(details)@) + pe_details(g),
{
    let ghost before = string_views(details@);
    match g {
        PeGrade::Below15 => {
            *score = *score + 5;
            push_detail(details, "PE < 15, potentially undervalued");
        },
        PeGrade::Above50 => {
            *score = score.saturating_sub(5);
            push_detail(details, "PE > 50, potentially overvalued");
        },
        PeGrade::Other => {},
    }
    assert(string_views(details@) =~= before + pe_details(g));
}

fn apply_pb(score: &mut u8, g: PbGrade)
    requires
        35 <= *old(score) <= 80,
    ensures
        *final(score) as int == *old(score) as int + pb_points(g),
{
    match g {
        PbGrade::Below2 => {
            *score = *score + 5;
        },
        PbGrade::Above10 => {
            *score = score.saturating_sub(5);
        },
        PbGrade::Other => {},
    }
}

fn apply_debt(score: &mut u8, details: &mut Vec<String>, g: DebtGrade)
    requires
        30 <= *old(score) <= 85,
    ensures
        *final(score) as int == *old(score) as int + debt_points(g),
        string_views(final(details)@) == string_views(old(details)@) + debt_details(g),
{
    let ghost before = string_views(details@);
    match g {
        DebtGrade::Below30 => {
            *score = *score + 10;
            push_detail(details, "Low debt ratio, financially conservative");
        },
        DebtGrade::Below50 => {
            *score = *score + 5;
        },
        DebtGrade::Above70 => {
            *score = score.saturating_sub(10);
            push_detail(details, "High debt ratio, financial risk");
        },
        DebtGrade::Other => {},
    }
    assert(string_views(details@) =~= before + debt_details(g));
}

fn apply_cash_flow(score: &mut u8, details: &mut Vec<String>, g: CashFlowGrade)
    requires
        20 <= *old(score) <= 95,
    ensures
        *final(score) as int == *old(score) as int + cash_flow_points(g),
        string_views(final(details)@) == string_views(old(details)@) + cash_flow_details(g),
{
    let ghost before = string_views(details@);
    match g {
        CashFlowGrade::Strong => {
            *score = *score + 10;
            push_detail(details, "Strong operating cash flow");
        },
        CashFlowGrade::Other => {},
    }
    assert(string_views(details@) =~= before + cash_flow_details(g));
}

fn summary_for(score: u8) -> (r: String)
    ensures
        r@ == health_summary(score as int),
{
    if score >= 80 {
        String::from_str("Excellent financial health")
    } else if score >= 65 {
        String::from_str("Good financial health")
    } else if score >= 50 {
        String::from_str("Average financial health")
    } else if score >= 35 {
        String::from_str("Below average financial health")
    } else {
        String::from_str("Poor financial health, invest with caution")
    }
}

impl FinancialAnalyzer {
    /// Scores a company's financial health (0-100) from the grades of its
    /// latest report and valuation ratios. The score starts at 50; each
    /// grade adds or takes away points; the result is capped at 100.
    pub fn score(&self, code: String, grades: &HealthGrades) -> (r: FinancialHealth)
        ensures
            r.code == code,
            r.score as int == health_score(*grades),
            r.summary@ == health_summary(r.score as int),
            string_views(r.details@) == health_details(*grades),
    {
        let mut score: u8 = 50;
        let mut details: Vec<String> = Vec::new();
        assert(string_views(details@) =~= Seq::<Seq<char>>::empty());
        // Profitability (max 25 points)
        apply_roe(&mut score, &mut details, grades.roe);
        apply_margin(&mut score, &mut details, grades.net_margin);
        // Valuation (max 10 points)
        apply_pe(&mut score, &mut details, grades.pe);
        apply_pb(&mut score, grades.pb);
        // Debt (max 10 points)
        apply_debt(&mut score, &mut details, grades.debt);
        // Cash flow (max 10 points)
        apply_cash_flow(&mut score, &mut details, grades.cash_flow);
        assert(string_views(details@) =~= health_details(*grades));
        let capped: u8 = if score > 100 { 100 } else { score };
        let summary = summary_for(capped);
        FinancialHealth { code, score: capped, summary, details }
    }
}

/// Every score lies between 20 and 100: the deductions can never take the
/// score below 20, so no deduction is ever cut short at zero.
pub proof fn lemma_score_bounds(g: HealthGrades)
    ensures
        20 <= health_total(g) <= 105,
        20 <= health_score(g) <= 100,
{
}

/// Improving any metric's grade never lowers the score: if every grade of
/// `better` is worth at least as many points as the matching grade of
/// `worse`, its score is at least as high.
pub proof fn lemma_score_monotone(worse: HealthGrades, better: HealthGrades)
    requires
        roe_points(worse.roe) <= roe_points(better.roe),
        margin_points(worse.net_margin) <= margin_points(better.net_margin),
        pe_points(worse.pe) <= pe_points(better.pe),
        pb_points(worse.pb) <= pb_points(better.pb),
        debt_points(worse.debt) <= debt_points(better.debt),
        cash_flow_points(worse.cash_flow) <= cash_flow_points(better.cash_flow),
    ensures
        health_score(worse) <= health_score(better),
{
}

/// The grades of a report with nothing to say: every metric in its neutral band.
pub open spec fn neutral_grades() -> HealthGrades {
    HealthGrades {
        roe: RoeGrade::Middle,
        net_margin: MarginGrade::Other,
        pe: PeGrade::Other,
        pb: PbGrade::Other,
        debt: DebtGrade::Other,
        cash_flow: CashFlowGrade::Other,
    }
}

/// What each grade is worth: a report with only neutral grades totals 50,
/// and, whatever the other grades, moving one metric from its neutral band
/// adds ROE > 20: 15, ROE > 15: 10, ROE > 10: 5, ROE < 5: -10; net margin
/// > 20: 10, > 10: 5; PE < 15: 5, PE > 50: -5; PB < 2: 5, PB > 10: -5;
/// debt ratio < 0.3: 10, < 0.5: 5, > 0.7: -10; strong cash flow: 10.
pub proof fn lemma_grade_points(g: HealthGrades)
    ensures
        health_total(neutral_grades()) == 50,
        health_total(HealthGrades { roe: RoeGrade::Above20, ..g }) == health_total(
            HealthGrades { roe: RoeGrade::Middle, ..g },
        ) + 15,
        health_total(HealthGrades { roe: RoeGrade::Above15, ..g }) == health_total(
            HealthGrades { roe: RoeGrade::Middle, ..g },
        ) + 10,
        health_total(HealthGrades { roe: RoeGrade::Above10, ..g }) == health_total(
            HealthGrades { roe: RoeGrade::Middle, ..g },
        ) + 5,
        health_total(HealthGrades { roe: RoeGrade::Below5, ..g }) == health_total(
            HealthGrades { roe: RoeGrade::Middle, ..g },
        ) - 10,
        health_total(HealthGrades { net_margin: MarginGrade::Above20, ..g }) == health_total(
            HealthGrades { net_margin: MarginGrade::Other, ..g },
        ) + 10,
        health_total(HealthGrades { net_margin: MarginGrade::Above10, ..g }) == health_total(
            HealthGrades { net_margin: MarginGrade::Other, ..g },
        ) + 5,
        health_total(HealthGrades { pe: PeGrade::Below15, ..g }) == health_total(
            HealthGrades { pe: PeGrade::Other, ..g },
        ) + 5,
        health_total(HealthGrades { pe: PeGrade::Above50, ..g }) == health_total(
            HealthGrades { pe: PeGrade::Other, ..g },
        ) - 5,
        health_total(HealthGrades { pb: PbGrade::Below2, ..g }) == health_total(
            HealthGrades { pb: PbGrade::Other, ..g },
        ) + 5,
        health_total(HealthGrades { pb: PbGrade::Above10, ..g }) == health_total(
            HealthGrades { pb: PbGrade::Other, ..g },
        ) - 5,
        health_total(HealthGrades { debt: DebtGrade::Below30, ..g }) == health_total(
            HealthGrades { debt: DebtGrade::Other, ..g },
        ) + 10,
        health_total(HealthGrades { debt: DebtGrade::Below50, ..g }) == health_total(
            HealthGrades { debt: DebtGrade::Other, ..g },
        ) + 5,
        health_total(HealthGrades { debt: DebtGrade::Above70, ..g }) == health_total(
            HealthGrades { debt: DebtGrade::Other, ..g },
        ) - 10,
        health_total(HealthGrades { cash_flow: CashFlowGrade::Strong, ..g }) == health_total(
            HealthGrades { cash_flow: CashFlowGrade::Other, ..g },
        ) + 10,
{
}

/// The score is the total, cut at 100; its summary names its band: 80 and
/// above excellent, 65 good, 50 average, 35 below average, else poor.
pub proof fn lemma_score_and_summary(g: HealthGrades)
    ensures
        health_total(g) <= 100 ==> health_score(g) == health_total(g),
        health_total(g) > 100 ==> health_score(g) == 100,
        health_score(g) >= 80 ==> health_summary(health_score(g)) == "Excellent financial health"@,
        65 <= health_score(g) < 80 ==> health_summary(health_score(g)) == "Good financial health"@,
        50 <= health_score(g) < 65 ==> health_summary(health_score(g)) == "Average financial health"@,
        35 <= health_score(g) < 50 ==> health_summary(health_score(g))
            == "Below average financial health"@,
        health_score(g) < 35 ==> health_summary(health_score(g))
            == "Poor financial health, invest with caution"@,
{
}

/// The service that the application asks for financial-health assessments.
pub struct AnalysisService {
    fundamental: FinancialAnalyzer,
}

impl AnalysisService {
    pub fn new() -> (r: AnalysisService) {
        AnalysisService { fundamental: FinancialAnalyzer }
    }

    /// Assesses a company's financial health from the grades of its report.
    pub fn assess_financial_health(&self, code: String, grades: &HealthGrades) -> (r: FinancialHealth)
        ensures
            r.code == code,
            r.score as int == health_score(*grades),
            r.summary@ == health_summary(r.score as int),
            string_views(r.details@) == health_details(*grades),
    {
        self.fundamental.score(code, grades)
    }
}

/// How a score is shown: good from 65, fair from 45, poor below.
#[derive(Debug, Clone, Copy, PartialEq, Eq, Structural)]
pub enum ScoreBand {
    Good,
    Fair,
    Poor,
}

impl ScoreBand {
    pub fn of_score(score: u8) -> (r: ScoreBand)
        ensures
            score >= 65 ==> r == ScoreBand::Good,
            45 <= score < 65 ==> r == ScoreBand::Fair,
            score < 45 ==> r == ScoreBand::Poor,
    {
        if score >= 65 {
            ScoreBand::Good
        } else if score >= 45 {
            ScoreBand::Fair
        } else {
            ScoreBand::Poor
        }
    }
}

} // verus!
