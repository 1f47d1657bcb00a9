use norsk_analyse::predict::{predict, AnalysisError, HistoricalTransaction, RiskLevel, Trend, MAX_ANALYSIS_TOTAL};

fn tx(date: &str, amount: u64, category: &str) -> HistoricalTransaction {
    HistoricalTransaction {
        date: String::from(date),
        merchant: String::from("butikk"),
        amount,
        category: String::from(category),
        season: None,
        cultural_event: None,
    }
}

fn monthly_groceries() -> Vec<HistoricalTransaction> {
    // Twelve monthly transactions totalling 1200 kroner.
    let mut txs = Vec::new();
    for m in 1..=12 {
        txs.push(tx(&format!("2024-{:02}-01", m), 10000, "Grocery Store"));
    }
    txs
}

#[test]
fn empty_transaction_list_is_refused() {
    let txs: Vec<HistoricalTransaction> = Vec::new();
    let r = predict(&txs, "forening", "next_year", "spending_patterns");
    assert_eq!(r.unwrap_err(), AnalysisError::InputValidation);
}

#[test]
fn grocery_year_prediction_upweighted() {
    let txs = monthly_groceries();
    let rep = predict(&txs, "forening", "next_year", "spending_patterns").unwrap();
    assert_eq!(rep.predictions.len(), 1);
    let p = &rep.predictions[0];
    assert_eq!(p.category.as_str(), "Grocery Store");
    assert_eq!(p.period.as_str(), "next_year");
    // 1200 kroner over twelve months, a year ahead, with the 1.1
    // grocery upweight: 1200 * 1.1 = 1320 kroner.
    assert_eq!(p.predicted_amount, 132000);
    // 0.75 + 1200/10000 = 0.87.
    assert_eq!(p.confidence, 870);
    assert_eq!(p.trend, Trend::Stable);
    assert_eq!(p.factors.len(), 3);
    assert_eq!(p.factors[0].as_str(), "Historical spending patterns");
    assert_eq!(p.factors[1].as_str(), "Seasonal adjustments");
    assert_eq!(p.factors[2].as_str(), "forening organization type");
    assert_eq!(rep.confidence_score, 830);
    assert_eq!(rep.analysis_type.as_str(), "advanced_norwegian_spending_patterns");
}

#[test]
fn confidence_grows_with_spend_up_to_cap() {
    let small = vec![tx("2024-01-01", 50000, "Grocery Store")];
    let medium = vec![tx("2024-01-01", 1000000, "Grocery Store")];
    let large = vec![tx("2024-01-01", 90000000, "Grocery Store")];
    let cs = predict(&small, "forening", "next_month", "spending_patterns").unwrap();
    let cm = predict(&medium, "forening", "next_month", "spending_patterns").unwrap();
    let cl = predict(&large, "forening", "next_month", "spending_patterns").unwrap();
    let a = cs.predictions[0].confidence;
    let b = cm.predictions[0].confidence;
    let c = cl.predictions[0].confidence;
    assert!(a <= b && b <= c);
    assert_eq!(a, 800);
    // The cap: 0.95.
    assert_eq!(c, 950);
}

#[test]
fn trend_increases_above_threshold() {
    let high = vec![tx("2024-01-01", 500001, "Grocery Store")];
    let rep = predict(&high, "forening", "next_month", "spending_patterns").unwrap();
    assert_eq!(rep.predictions[0].trend, Trend::Increasing);
}

#[test]
fn timeframe_multipliers() {
    let txs = vec![tx("2024-01-01", 120000, "Postal Service")];
    let month = predict(&txs, "forening", "next_month", "spending_patterns").unwrap();
    let quarter = predict(&txs, "forening", "next_quarter", "spending_patterns").unwrap();
    let year = predict(&txs, "forening", "next_year", "spending_patterns").unwrap();
    let other = predict(&txs, "forening", "whenever", "spending_patterns").unwrap();
    // 1200 kroner averaged over twelve months: 100 a month, neutral
    // category weight.
    assert_eq!(month.predictions[0].predicted_amount, 10000);
    assert_eq!(quarter.predictions[0].predicted_amount, 30000);
    assert_eq!(year.predictions[0].predicted_amount, 120000);
    assert_eq!(other.predictions[0].predicted_amount, 30000);
}

#[test]
fn alcohol_weight_follows_december_against_june() {
    // December outspends June: the alcohol category is upweighted.
    let festive = vec![
        tx("2024-12-10", 60000, "Alcohol Monopoly"),
        tx("2024-06-10", 12000, "Alcohol Monopoly"),
    ];
    let rep = predict(&festive, "forening", "next_month", "spending_patterns").unwrap();
    // Total 720 kroner: 60 a month, times 1.3.
    assert_eq!(rep.predictions[0].predicted_amount, 7800);

    // June outspends December: downweighted to 0.8.
    let sober = vec![
        tx("2024-12-10", 12000, "Alcohol Monopoly"),
        tx("2024-06-10", 60000, "Alcohol Monopoly"),
    ];
    let rep2 = predict(&sober, "forening", "next_month", "spending_patterns").unwrap();
    assert_eq!(rep2.predictions[0].predicted_amount, 4800);
}

#[test]
fn unparsable_dates_skip_month_buckets_only() {
    // The unparsable date still counts toward the category total but
    // toward no month, so December no longer outspends June.
    let txs = vec![
        tx("ikke en dato", 60000, "Alcohol Monopoly"),
        tx("2024-06-10", 12000, "Alcohol Monopoly"),
    ];
    let rep = predict(&txs, "forening", "next_month", "spending_patterns").unwrap();
    // Total 720 kroner: 60 a month, times 0.8.
    assert_eq!(rep.predictions[0].predicted_amount, 4800);
}

#[test]
fn categories_keep_first_appearance_order() {
    let txs = vec![
        tx("2024-01-01", 10000, "Grocery Store"),
        tx("2024-02-01", 20000, "Gas Station"),
        tx("2024-03-01", 30000, "Grocery Store"),
    ];
    let rep = predict(&txs, "forening", "next_month", "spending_patterns").unwrap();
    assert_eq!(rep.predictions.len(), 2);
    assert_eq!(rep.predictions[0].category.as_str(), "Grocery Store");
    assert_eq!(rep.predictions[1].category.as_str(), "Gas Station");
    // 400 kroner of groceries: 33.33 a month, upweighted by 1.1:
    // 40000 * 110 / 1200 = 3666 minor units.
    assert_eq!(rep.predictions[0].predicted_amount, 3666);
    assert_eq!(rep.predictions[1].predicted_amount, 1666);
}

#[test]
fn seasonal_insights_are_fixed_catalog() {
    let rep = predict(&monthly_groceries(), "forening", "next_year", "spending_patterns").unwrap();
    assert_eq!(rep.seasonal_insights.len(), 3);
    let first = &rep.seasonal_insights[0];
    assert_eq!(first.season_label.as_str(), "17. mai (Constitution Day)");
    assert_eq!(
        first.cultural_event.as_ref().map(|s| s.as_str()),
        Some("Norwegian National Day")
    );
    assert_eq!(first.expected_spending_increase, 180);
    assert_eq!(first.key_categories.len(), 3);
    assert_eq!(first.key_categories[0].as_str(), "Flagg");
    assert_eq!(rep.seasonal_insights[1].expected_spending_increase, 220);
    assert_eq!(rep.seasonal_insights[2].expected_spending_increase, 140);
}

#[test]
fn seasonal_trends_variant_scales_insights() {
    let rep = predict(&monthly_groceries(), "forening", "next_year", "seasonal_trends").unwrap();
    assert_eq!(rep.seasonal_insights[0].expected_spending_increase, 198);
    assert_eq!(rep.seasonal_insights[1].expected_spending_increase, 242);
    assert_eq!(rep.seasonal_insights[2].expected_spending_increase, 154);
    assert_eq!(rep.analysis_type.as_str(), "advanced_norwegian_seasonal_trends");
    // Budget lines are untouched by this variant.
    assert_eq!(rep.budget_recommendations[0].recommended_budget, 132000 * 15 / 100);
}

#[test]
fn budget_recommendations_shares() {
    let rep = predict(&monthly_groceries(), "forening", "next_year", "spending_patterns").unwrap();
    assert_eq!(rep.budget_recommendations.len(), 2);
    let emergency = &rep.budget_recommendations[0];
    assert_eq!(emergency.category.as_str(), "Emergency Reserve");
    // 15% of the 1320-kroner total prediction.
    assert_eq!(emergency.recommended_budget, 19800);
    assert_eq!(emergency.risk_level, RiskLevel::Low);
    assert_eq!(emergency.optimization_tips.len(), 2);
    let seasonal = &rep.budget_recommendations[1];
    assert_eq!(seasonal.category.as_str(), "Seasonal Events");
    assert_eq!(seasonal.recommended_budget, 33000);
    assert_eq!(seasonal.risk_level, RiskLevel::Medium);
}

#[test]
fn budget_forecast_variant_is_conservative() {
    let rep = predict(&monthly_groceries(), "forening", "next_year", "budget_forecast").unwrap();
    // Each line raised by 15%: 19800 * 1.15 = 22770.
    assert_eq!(rep.budget_recommendations[0].recommended_budget, 22770);
    assert_eq!(rep.budget_recommendations[1].recommended_budget, 37950);
    assert!(rep.budget_recommendations[0]
        .reasoning
        .as_str()
        .starts_with("Conservative forecast: "));
    // Insights are untouched by this variant.
    assert_eq!(rep.seasonal_insights[0].expected_spending_increase, 180);
}

#[test]
fn largest_supported_volume_is_accepted() {
    let txs = vec![tx("2024-01-01", MAX_ANALYSIS_TOTAL, "Grocery Store")];
    let rep = predict(&txs, "forening", "next_year", "spending_patterns").unwrap();
    // total * 12 * 1.1 / 12 at the volume cap, exactly.
    assert_eq!(
        rep.predictions[0].predicted_amount,
        MAX_ANALYSIS_TOTAL / 1200 * 1320
    );
    assert_eq!(rep.predictions[0].confidence, 950);
    assert_eq!(rep.predictions[0].trend, Trend::Increasing);
}
