use stock_vision::analysis::{
    AnalysisService, CashFlowGrade, DebtGrade, FinancialAnalyzer, HealthGrades, MarginGrade,
    PbGrade, PeGrade, RoeGrade, ScoreBand,
};

fn neutral() -> HealthGrades {
    HealthGrades {
        roe: RoeGrade::Middle,
        net_margin: MarginGrade::Other,
        pe: PeGrade::Other,
        pb: PbGrade::Other,
        debt: DebtGrade::Other,
        cash_flow: CashFlowGrade::Other,
    }
}

#[test]
fn neutral_grades_score_fifty() {
    let h = FinancialAnalyzer.score("000001".to_string(), &neutral());
    assert_eq!(h.code, "000001");
    assert_eq!(h.score, 50);
    assert_eq!(h.summary, "Average financial health");
    assert!(h.details.is_empty());
}

#[test]
fn best_grades_are_capped_at_one_hundred() {
    let g = HealthGrades {
        roe: RoeGrade::Above20,
        net_margin: MarginGrade::Above20,
        pe: PeGrade::Below15,
        pb: PbGrade::Below2,
        debt: DebtGrade::Below30,
        cash_flow: CashFlowGrade::Strong,
    };
    let h = FinancialAnalyzer.score("600519".to_string(), &g);
    assert_eq!(h.score, 100);
    assert_eq!(h.summary, "Excellent financial health");
    assert_eq!(
        h.details,
        vec![
            "ROE > 20%, excellent profitability".to_string(),
            "Net margin > 20%, strong pricing power".to_string(),
            "PE < 15, potentially undervalued".to_string(),
            "Low debt ratio, financially conservative".to_string(),
            "Strong operating cash flow".to_string(),
        ]
    );
}

#[test]
fn worst_grades_score_twenty() {
    let g = HealthGrades {
        roe: RoeGrade::Below5,
        net_margin: MarginGrade::Other,
        pe: PeGrade::Above50,
        pb: PbGrade::Above10,
        debt: DebtGrade::Above70,
        cash_flow: CashFlowGrade::Other,
    };
    let h = FinancialAnalyzer.score("X".to_string(), &g);
    assert_eq!(h.score, 20);
    assert_eq!(h.summary, "Poor financial health, invest with caution");
    assert_eq!(
        h.details,
        vec![
            "ROE < 5%, low profitability".to_string(),
            "PE > 50, potentially overvalued".to_string(),
            "High debt ratio, financial risk".to_string(),
        ]
    );
}

#[test]
fn mock_report_grades_score_seventy() {
    // ROE 15 (not above 15), net margin 15, PE 15, PB 2, debt ratio 0.6,
    // operating cash flow 20 against profit 15.
    let g = HealthGrades {
        roe: RoeGrade::Above10,
        net_margin: MarginGrade::Above10,
        pe: PeGrade::Other,
        pb: PbGrade::Other,
        debt: DebtGrade::Other,
        cash_flow: CashFlowGrade::Strong,
    };
    let h = FinancialAnalyzer.score("000001".to_string(), &g);
    assert_eq!(h.score, 70);
    assert_eq!(h.summary, "Good financial health");
    assert_eq!(
        h.details,
        vec![
            "ROE > 10%, adequate profitability".to_string(),
            "Strong operating cash flow".to_string(),
        ]
    );
}

#[test]
fn summary_thresholds() {
    let mut g = neutral();
    g.roe = RoeGrade::Above15; // 60
    assert_eq!(FinancialAnalyzer.score(String::new(), &g).summary, "Average financial health");
    g.pe = PeGrade::Below15; // 65
    assert_eq!(FinancialAnalyzer.score(String::new(), &g).summary, "Good financial health");
    let mut b = neutral();
    b.roe = RoeGrade::Below5; // 40
    assert_eq!(FinancialAnalyzer.score(String::new(), &b).summary, "Below average financial health");
    b.debt = DebtGrade::Above70; // 30
    assert_eq!(FinancialAnalyzer.score(String::new(), &b).score, 30);
    assert_eq!(
        FinancialAnalyzer.score(String::new(), &b).summary,
        "Poor financial health, invest with caution"
    );
}

#[test]
fn better_grade_never_lowers_score() {
    let worse = neutral();
    let mut better = neutral();
    better.debt = DebtGrade::Below50;
    let a = FinancialAnalyzer.score(String::new(), &worse).score;
    let b = FinancialAnalyzer.score(String::new(), &better).score;
    assert!(a <= b);
    assert_eq!(b, 55);
}

#[test]
fn service_delegates_to_analyzer() {
    let s = AnalysisService::new();
    let mut g = neutral();
    g.pb = PbGrade::Below2;
    let h = s.assess_financial_health("300750".to_string(), &g);
    assert_eq!(h.score, 55);
    assert_eq!(h.code, "300750");
}

#[test]
fn score_bands() {
    assert_eq!(ScoreBand::of_score(100), ScoreBand::Good);
    assert_eq!(ScoreBand::of_score(65), ScoreBand::Good);
    assert_eq!(ScoreBand::of_score(64), ScoreBand::Fair);
    assert_eq!(ScoreBand::of_score(45), ScoreBand::Fair);
    assert_eq!(ScoreBand::of_score(44), ScoreBand::Poor);
    assert_eq!(ScoreBand::of_score(0), ScoreBand::Poor);
}
