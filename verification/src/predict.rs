//! Predictive analytics: aggregates historical transactions into
//! per-category spend predictions, fixed seasonal insights and budget
//! recommendations.

use vstd::prelude::*;
use vstd::arithmetic::div_mod::{lemma_div_is_ordered, lemma_fundamental_div_mod_converse};
use vstd::arithmetic::mul::lemma_mul_inequality;
use vstd::string::StringExecFns;
use crate::dates::{date_month, parse_month};
use crate::text::str_eq;

verus! {

/// One historical transaction, supplied wholesale per request.
#[derive(PartialEq, Debug)]
pub struct HistoricalTransaction {
    /// Date in `YYYY-MM-DD` form; unparsable dates are skipped by the
    /// month aggregation, never fatal.
    pub date: String,
    pub merchant: String,
    /// Amount in minor units (hundredths).
    pub amount: u64,
    pub category: String,
    pub season: Option<String>,
    pub cultural_event: Option<String>,
}

/// Direction of a predicted spend.
#[derive(Clone, Copy, PartialEq, Eq, Structural, Debug)]
pub enum Trend {
    Increasing,
    Stable,
}

/// Risk level of a budget recommendation.
#[derive(Clone, Copy, PartialEq, Eq, Structural, Debug)]
pub enum RiskLevel {
    Low,
    Medium,
    High,
}

/// The failure of a predictive-analysis request.
#[derive(Clone, Copy, PartialEq, Eq, Structural, Debug)]
pub enum AnalysisError {
    /// The caller handed an empty transaction list.
    InputValidation,
}

/// A per-category spend prediction.
#[derive(PartialEq, Debug)]
pub struct SpendPrediction {
    pub period: String,
    /// Predicted spend in minor units.
    pub predicted_amount: u64,
    pub category: String,
    /// Confidence in thousandths.
    pub confidence: u32,
    pub trend: Trend,
    pub factors: Vec<String>,
}

/// A fixed seasonal insight record.
#[derive(PartialEq, Debug)]
pub struct SeasonalInsight {
    pub season_label: String,
    pub cultural_event: Option<String>,
    /// Expected spending increase factor, in hundredths (180 = 1.8x).
    pub expected_spending_increase: u32,
    pub key_categories: Vec<String>,
    pub historical_pattern: String,
}

/// A budget recommendation line.
#[derive(PartialEq, Debug)]
pub struct BudgetRecommendation {
    pub category: String,
    /// Recommended budget in minor units.
    pub recommended_budget: u64,
    pub reasoning: String,
    pub risk_level: RiskLevel,
    pub optimization_tips: Vec<String>,
}

/// The full predictive-analysis report.
#[derive(PartialEq, Debug)]
pub struct PredictiveReport {
    pub predictions: Vec<SpendPrediction>,
    pub seasonal_insights: Vec<SeasonalInsight>,
    pub budget_recommendations: Vec<BudgetRecommendation>,
    /// Overall confidence in thousandths.
    pub confidence_score: u32,
    pub analysis_type: String,
}

/// Largest total transaction volume a request may carry, in minor
/// units: keeps every derived product within the machine word.
pub const MAX_ANALYSIS_TOTAL: u64 = 9000000000000000;

/// The distinct transaction categories, in order of first appearance.
pub open spec fn cat_list(txs: Seq<HistoricalTransaction>) -> Seq<Seq<char>>
    decreases txs.len(),
{
    if txs.len() == 0 {
        Seq::empty()
    } else {
        let pre = cat_list(txs.drop_last());
        if pre.contains(txs.last().category@) {
            pre
        } else {
            pre.push(txs.last().category@)
        }
    }
}

/// Total amount of the transactions in category `c`.
pub open spec fn cat_total(txs: Seq<HistoricalTransaction>, c: Seq<char>) -> int
    decreases txs.len(),
{
    if txs.len() == 0 {
        0
    } else {
        cat_total(txs.drop_last(), c) + if txs.last().category@ == c {
            txs.last().amount as int
        } else {
            0
        }
    }
}

/// Total amount of all transactions.
pub open spec fn total_amount(txs: Seq<HistoricalTransaction>) -> int
    decreases txs.len(),
{
    if txs.len() == 0 {
        0
    } else {
        total_amount(txs.drop_last()) + txs.last().amount as int
    }
}

/// Total amount of the transactions whose date parses to month `m`.
pub open spec fn month_total(txs: Seq<HistoricalTransaction>, m: u32) -> int
    decreases txs.len(),
{
    if txs.len() == 0 {
        0
    } else {
        month_total(txs.drop_last(), m) + if date_month(txs.last().date@) == Some(m) {
            txs.last().amount as int
        } else {
            0
        }
    }
}

/// The timeframe multiplier: one month, a quarter, a year; a quarter
/// for anything unrecognised.
pub open spec fn tf_mult(timeframe: Seq<char>) -> int {
    if timeframe == "next_month"@ {
        1
    } else if timeframe == "next_quarter"@ {
        3
    } else if timeframe == "next_year"@ {
        12
    } else {
        3
    }
}

/// The category-specific seasonal multiplier, in hundredths:
/// groceries always slightly upweighted; the alcohol monopoly
/// upweighted when December outspends June, else downweighted; all
/// others neutral.
pub open spec fn seasonal_mult(c: Seq<char>, dec_total: int, jun_total: int) -> int {
    if c == "Grocery Store"@ {
        110
    } else if c == "Alcohol Monopoly"@ {
        if dec_total > jun_total {
            130
        } else {
            80
        }
    } else {
        100
    }
}

/// The predicted amount for a category: the monthly average of its
/// total, times the timeframe multiplier, times the seasonal
/// multiplier in hundredths.
pub open spec fn predicted_minor(total: int, tf: int, sm: int) -> int {
    total * tf * sm / 1200
}

/// The confidence for a category total, in thousandths: 0.75 plus the
/// total in units per ten thousand, capped at 0.95.
pub open spec fn confidence_of_total(total: int) -> int {
    if total / 1000 < 200 {
        750 + total / 1000
    } else {
        950
    }
}

/// The trend for a category total: increasing above 5000 kroner.
pub open spec fn trend_of_total(total: int) -> Trend {
    if total > 500000 {
        Trend::Increasing
    } else {
        Trend::Stable
    }
}

/// The rationale strings attached to every prediction.
pub open spec fn factors_of(org: Seq<char>) -> Seq<Seq<char>> {
    seq![
        "Historical spending patterns"@,
        "Seasonal adjustments"@,
        org + " organization type"@,
    ]
}

/// Sum of the predicted amounts over a list of categories.
pub open spec fn predicted_sum(
    cats: Seq<Seq<char>>,
    txs: Seq<HistoricalTransaction>,
    tf: int,
    dec: int,
    jun: int,
) -> int
    decreases cats.len(),
{
    if cats.len() == 0 {
        0
    } else {
        predicted_sum(cats.drop_last(), txs, tf, dec, jun) + predicted_minor(
            cat_total(txs, cats.last()),
            tf,
            seasonal_mult(cats.last(), dec, jun),
        )
    }
}

/// Sum of a sequence of amounts.
pub open spec fn sum_totals(s: Seq<u64>) -> int
    decreases s.len(),
{
    if s.len() == 0 {
        0
    } else {
        sum_totals(s.drop_last()) + s.last() as int
    }
}

/// Law: the prediction confidence grows monotonically with total
/// spend and never exceeds its cap of 0.95.
pub proof fn lemma_confidence_monotone(t1: int, t2: int)
    requires
        0 <= t1 <= t2,
    ensures
        confidence_of_total(t1) <= confidence_of_total(t2),
        confidence_of_total(t2) <= 950,
{
    lemma_div_is_ordered(t1, t2, 1000);
}

proof fn lemma_total_take_le(txs: Seq<HistoricalTransaction>, i: int)
    requires
        0 <= i <= txs.len(),
    ensures
        total_amount(txs.take(i)) <= total_amount(txs),
    decreases txs.len() - i,
{
    if i < txs.len() {
        assert(txs.take(i + 1).drop_last() =~= txs.take(i));
        assert(txs.take(i + 1).last() == txs[i]);
        lemma_total_take_le(txs, i + 1);
    } else {
        assert(txs.take(i) =~= txs);
    }
}

proof fn lemma_month_le_total(txs: Seq<HistoricalTransaction>, m: u32)
    ensures
        0 <= month_total(txs, m) <= total_amount(txs),
    decreases txs.len(),
{
    if txs.len() > 0 {
        lemma_month_le_total(txs.drop_last(), m);
    }
}

proof fn lemma_cat_le_total(txs: Seq<HistoricalTransaction>, c: Seq<char>)
    ensures
        0 <= cat_total(txs, c) <= total_amount(txs),
    decreases txs.len(),
{
    if txs.len() > 0 {
        lemma_cat_le_total(txs.drop_last(), c);
    }
}

/// A category never seen in the list has a zero total.
proof fn lemma_absent_cat_zero(txs: Seq<HistoricalTransaction>, c: Seq<char>)
    requires
        !cat_list(txs).contains(c),
    ensures
        cat_total(txs, c) == 0,
    decreases txs.len(),
{
    if txs.len() > 0 {
        let pre = cat_list(txs.drop_last());
        if pre.contains(c) {
            let k = choose|k: int| 0 <= k < pre.len() && pre[k] == c;
            if !pre.contains(txs.last().category@) {
                assert(cat_list(txs)[k] == c);
            }
            assert(false);
        }
        if txs.last().category@ == c {
            if !pre.contains(c) {
                assert(cat_list(txs).last() == c);
            }
            assert(false);
        }
        lemma_absent_cat_zero(txs.drop_last(), c);
    }
}

proof fn lemma_sum_update(s: Seq<u64>, j: int, v: u64)
    requires
        0 <= j < s.len(),
    ensures
        sum_totals(s.update(j, v)) == sum_totals(s) - s[j] + v,
    decreases s.len(),
{
    let u = s.update(j, v);
    if j == s.len() - 1 {
        assert(u.drop_last() =~= s.drop_last());
        assert(u.last() == v);
    } else {
        assert(u.drop_last() =~= s.drop_last().update(j, v));
        assert(u.last() == s.last());
        lemma_sum_update(s.drop_last(), j, v);
    }
}

proof fn lemma_sum_take_le(s: Seq<u64>, j: int)
    requires
        0 <= j <= s.len(),
    ensures
        sum_totals(s.take(j)) <= sum_totals(s),
    decreases s.len() - j,
{
    if j < s.len() {
        assert(s.take(j + 1).drop_last() =~= s.take(j));
        assert(s.take(j + 1).last() == s[j]);
        lemma_sum_take_le(s, j + 1);
    } else {
        assert(s.take(j) =~= s);
    }
}

/// Index of `c` in the category list, if present.
fn find_cat(cats: &Vec<String>, c: &String) -> (r: Option<usize>)
    ensures
        match r {
            Some(j) => j < cats@.len() && cats@[j as int]@ == c@,
            None => forall|k: int| 0 <= k < cats@.len() ==> (#[trigger] cats@[k])@ != c@,
        },
{
    let n = cats.len();
    let mut i: usize = 0;
    while i < n
        invariant
            i <= n,
            n == cats@.len(),
            forall|k: int| 0 <= k < i ==> (#[trigger] cats@[k])@ != c@,
        decreases n - i,
    {
        if str_eq(cats[i].as_str(), c.as_str()) {
            return Some(i);
        }
        i += 1;
    }
    None
}

/// Aggregates the transactions: distinct categories in order of first
/// appearance with their totals, and the December and June month
/// totals.
fn aggregate(txs: &Vec<HistoricalTransaction>) -> (r: (Vec<String>, Vec<u64>, u64, u64))
    requires
        total_amount(txs@) <= MAX_ANALYSIS_TOTAL,
    ensures
        r.0.deep_view() == cat_list(txs@),
        r.1@.len() == r.0@.len(),
        forall|j: int|
            0 <= j < r.1@.len() ==> (#[trigger] r.1@[j]) as int == cat_total(
                txs@,
                r.0.deep_view()[j],
            ),
        forall|j: int| 0 <= j < r.1@.len() ==> (#[trigger] r.1@[j]) <= MAX_ANALYSIS_TOTAL,
        sum_totals(r.1@) == total_amount(txs@),
        r.2 as int == month_total(txs@, 12),
        r.3 as int == month_total(txs@, 6),
        r.2 <= MAX_ANALYSIS_TOTAL,
        r.3 <= MAX_ANALYSIS_TOTAL,
{
    let ghost all = txs@;
    let n = txs.len();
    let mut cats: Vec<String> = Vec::new();
    let mut totals: Vec<u64> = Vec::new();
    let mut dec: u64 = 0;
    let mut jun: u64 = 0;
    let mut i: usize = 0;
    proof {
        assert(all.take(0) =~= Seq::<HistoricalTransaction>::empty());
    }
    while i < n
        invariant
            n == all.len(),
            all == txs@,
            total_amount(all) <= MAX_ANALYSIS_TOTAL,
            i <= n,
            cats.deep_view() == cat_list(all.take(i as int)),
            totals@.len() == cats@.len(),
            cats.deep_view().len() == cats@.len(),
            forall|j: int|
                0 <= j < totals@.len() ==> (#[trigger] totals@[j]) as int == cat_total(
                    all.take(i as int),
                    cats.deep_view()[j],
                ),
            sum_totals(totals@) == total_amount(all.take(i as int)),
            dec as int == month_total(all.take(i as int), 12),
            jun as int == month_total(all.take(i as int), 6),
            forall|a: int, b: int|
                0 <= a < b < cats.deep_view().len() ==> cats.deep_view()[a] != cats.deep_view()[b],
        decreases n - i,
    {
        let ghost prefix = all.take(i as int);
        let ghost extended = all.take(i as int + 1);
        proof {
            assert(extended.drop_last() =~= prefix);
            assert(extended.last() == all[i as int]);
            lemma_total_take_le(all, i as int + 1);
            lemma_month_le_total(prefix, 12);
            lemma_month_le_total(prefix, 6);
        }
        let tx_amount = txs[i].amount;
        let ghost c = all[i as int].category@;
        match parse_month(txs[i].date.as_str()) {
            Some(m) => {
                if m == 12 {
                    dec = dec + tx_amount;
                } else if m == 6 {
                    jun = jun + tx_amount;
                }
            },
            None => {},
        }
        match find_cat(&cats, &txs[i].category) {
            Some(j) => {
                proof {
                    assert(cats.deep_view()[j as int] == c);
                    assert(cat_list(extended) == cat_list(prefix));
                    lemma_cat_le_total(prefix, c);
                }
                let ghost old_totals = totals@;
                let updated = totals[j] + tx_amount;
                totals[j] = updated;
                proof {
                    lemma_sum_update(old_totals, j as int, updated);
                    assert forall|k: int| 0 <= k < totals@.len() implies (#[trigger] totals@[k])
                        as int == cat_total(extended, cats.deep_view()[k]) by {
                        if k == j {
                        } else {
                            assert(cats.deep_view()[k] != c);
                        }
                    }
                }
            },
            None => {
                proof {
                    assert(!cats.deep_view().contains(c)) by {
                        if cats.deep_view().contains(c) {
                            let k = choose|k: int|
                                0 <= k < cats.deep_view().len() && cats.deep_view()[k] == c;
                            assert(cats@[k]@ == c);
                        }
                    }
                    assert(cat_list(extended) == cat_list(prefix).push(c));
                    lemma_absent_cat_zero(prefix, c);
                }
                let ghost old_cats_dv = cats.deep_view();
                let ghost old_totals = totals@;
                cats.push(txs[i].category.clone());
                totals.push(tx_amount);
                proof {
                    assert(cats.deep_view() =~= old_cats_dv.push(c));
                    assert(totals@.drop_last() =~= old_totals);
                    assert forall|k: int| 0 <= k < totals@.len() implies (#[trigger] totals@[k])
                        as int == cat_total(extended, cats.deep_view()[k]) by {
                        if k < old_totals.len() {
                            assert(totals@[k] == old_totals[k]);
                            assert(cats.deep_view()[k] == old_cats_dv[k]);
                        }
                    }
                }
            },
        }
        i += 1;
    }
    proof {
        assert(all.take(n as int) =~= all);
        assert forall|j: int| 0 <= j < totals@.len() implies (#[trigger] totals@[j])
            <= MAX_ANALYSIS_TOTAL by {
            lemma_cat_le_total(all, cats.deep_view()[j]);
        }
        lemma_month_le_total(all, 12);
        lemma_month_le_total(all, 6);
    }
    (cats, totals, dec, jun)
}

/// The timeframe multiplier of a timeframe string.
fn tf_mult_exec(timeframe: &str) -> (r: u64)
    ensures
        r as int == tf_mult(timeframe@),
        1 <= r <= 12,
{
    if str_eq(timeframe, "next_month") {
        1
    } else if str_eq(timeframe, "next_quarter") {
        3
    } else if str_eq(timeframe, "next_year") {
        12
    } else {
        3
    }
}

/// The seasonal multiplier of a category, in hundredths.
fn seasonal_mult_exec(c: &String, dec: u64, jun: u64) -> (r: u64)
    ensures
        r as int == seasonal_mult(c@, dec as int, jun as int),
        80 <= r <= 130,
{
    if str_eq(c.as_str(), "Grocery Store") {
        110
    } else if str_eq(c.as_str(), "Alcohol Monopoly") {
        if dec > jun {
            130
        } else {
            80
        }
    } else {
        100
    }
}

/// The rationale strings attached to every prediction.
fn factors_exec(organization_type: &str) -> (r: Vec<String>)
    ensures
        r.deep_view() == factors_of(organization_type@),
{
    let mut r: Vec<String> = Vec::new();
    r.push(String::from_str("Historical spending patterns"));
    r.push(String::from_str("Seasonal adjustments"));
    let mut f3 = organization_type.to_owned();
    f3.append(" organization type");
    r.push(f3);
    proof {
        assert(r.deep_view() =~= factors_of(organization_type@));
    }
    r
}

/// The predicted amount for one category total, and its bound.
fn predicted_exec(total: u64, tf: u64, sm: u64) -> (r: u64)
    requires
        total <= MAX_ANALYSIS_TOTAL,
        1 <= tf <= 12,
        80 <= sm <= 130,
    ensures
        r as int == predicted_minor(total as int, tf as int, sm as int),
        r as int <= 2 * total as int,
{
    proof {
        assert((tf as int) * (sm as int) <= 1560 && 0 <= (tf as int) * (sm as int))
            by (nonlinear_arith)
            requires
                1 <= tf as int <= 12,
                80 <= sm as int <= 130,
        ;
    }
    let mult = tf * sm;
    proof {
        let t = total as int;
        let m = mult as int;
        assert(t * m <= MAX_ANALYSIS_TOTAL * 1560) by (nonlinear_arith)
            requires
                0 <= t <= MAX_ANALYSIS_TOTAL,
                0 <= m <= 1560,
        ;
        lemma_mul_inequality(m, 2400, t);
        lemma_div_is_ordered(t * m, 2400 * t, 1200);
        lemma_fundamental_div_mod_converse(2400 * t, 1200, 2 * t, 0);
        lemma_div_is_ordered(0, t * m, 1200);
        assert(t * (tf as int) * (sm as int) == t * m) by (nonlinear_arith)
            requires
                m == (tf as int) * (sm as int),
        ;
    }
    (total * mult) / 1200
}

/// The confidence for one category total, in thousandths.
fn confidence_exec(total: u64) -> (r: u32)
    ensures
        r as int == confidence_of_total(total as int),
        750 <= r <= 950,
{
    let q = total / 1000;
    if q < 200 {
        750 + (q as u32)
    } else {
        950
    }
}

/// One fixed seasonal insight record, possibly scaled for the
/// seasonal-trends analysis variant.
pub open spec fn insight_label_of(i: int) -> Seq<char> {
    if i == 0 {
        "17. mai (Constitution Day)"@
    } else if i == 1 {
        "Jul (Christmas)"@
    } else {
        "Påske (Easter)"@
    }
}

/// The cultural event of insight `i`.
pub open spec fn insight_event_of(i: int) -> Seq<char> {
    if i == 0 {
        "Norwegian National Day"@
    } else if i == 1 {
        "Norwegian Christmas"@
    } else {
        "Norwegian Easter"@
    }
}

/// The base expected-increase factor of insight `i`, in hundredths.
pub open spec fn insight_increase_of(i: int) -> int {
    if i == 0 {
        180
    } else if i == 1 {
        220
    } else {
        140
    }
}

/// The key categories of insight `i`.
pub open spec fn insight_cats_of(i: int) -> Seq<Seq<char>> {
    if i == 0 {
        seq!["Flagg"@, "Korv"@, "Brus"@]
    } else if i == 1 {
        seq!["Ribbe"@, "Pinnekjøtt"@, "Julepresanger"@]
    } else {
        seq!["Egg"@, "Lam"@, "Kvikk Lunsj"@]
    }
}

/// The historical-pattern note of insight `i`.
pub open spec fn insight_pattern_of(i: int) -> Seq<char> {
    if i == 0 {
        "350% increase in patriotic items and food for celebrations"@
    } else if i == 1 {
        "Peak spending season with traditional food focus"@
    } else {
        "Moderate increase focused on Easter traditions"@
    }
}

/// A well-formed insight record: every field holds the table value,
/// the increase scaled by 1.1 under the seasonal-trends variant.
pub open spec fn wf_insight(ins: SeasonalInsight, i: int, seasonal_variant: bool) -> bool {
    &&& ins.season_label@ == insight_label_of(i)
    &&& ins.cultural_event.deep_view() == Some(insight_event_of(i))
    &&& ins.expected_spending_increase as int == if seasonal_variant {
        insight_increase_of(i) * 110 / 100
    } else {
        insight_increase_of(i)
    }
    &&& ins.key_categories.deep_view() == insight_cats_of(i)
    &&& ins.historical_pattern@ == insight_pattern_of(i)
}

/// Builds the insight record at position `i`.
fn make_insight(i: usize, seasonal_variant: bool) -> (ins: SeasonalInsight)
    requires
        i < 3,
    ensures
        wf_insight(ins, i as int, seasonal_variant),
{
    let mut key_categories: Vec<String> = Vec::new();
    let season_label: &'static str;
    let event: &'static str;
    let base: u32;
    let pattern: &'static str;
    if i == 0 {
        season_label = "17. mai (Constitution Day)";
        event = "Norwegian National Day";
        base = 180;
        pattern = "350% increase in patriotic items and food for celebrations";
        key_categories.push(String::from_str("Flagg"));
        key_categories.push(String::from_str("Korv"));
        key_categories.push(String::from_str("Brus"));
    } else if i == 1 {
        season_label = "Jul (Christmas)";
        event = "Norwegian Christmas";
        base = 220;
        pattern = "Peak spending season with traditional food focus";
        key_categories.push(String::from_str("Ribbe"));
        key_categories.push(String::from_str("Pinnekjøtt"));
        key_categories.push(String::from_str("Julepresanger"));
    } else {
        season_label = "Påske (Easter)";
        event = "Norwegian Easter";
        base = 140;
        pattern = "Moderate increase focused on Easter traditions";
        key_categories.push(String::from_str("Egg"));
        key_categories.push(String::from_str("Lam"));
        key_categories.push(String::from_str("Kvikk Lunsj"));
    }
    let expected_spending_increase: u32 = if seasonal_variant {
        base * 110 / 100
    } else {
        base
    };
    proof {
        assert(key_categories.deep_view() =~= insight_cats_of(i as int));
    }
    SeasonalInsight {
        season_label: String::from_str(season_label),
        cultural_event: Some(String::from_str(event)),
        expected_spending_increase,
        key_categories,
        historical_pattern: String::from_str(pattern),
    }
}

/// The base reasoning text of budget line `i`.
pub open spec fn budget_reasoning_of(i: int) -> Seq<char> {
    if i == 0 {
        "15% buffer for unexpected expenses based on Norwegian organizational best practices"@
    } else {
        "Norwegian cultural events drive significant spending spikes"@
    }
}

/// The tip list of budget line `i`.
pub open spec fn budget_tips_of(i: int) -> Seq<Seq<char>> {
    if i == 0 {
        seq!["Set aside monthly reserves"@, "Plan for seasonal variations"@]
    } else {
        seq!["Plan Christmas purchases early"@, "Book 17. mai supplies in advance"@]
    }
}

/// A well-formed budget line: the emergency reserve at 15% or the
/// seasonal-events line at 25% of the total predicted spend, each
/// raised by 15% and relabelled conservative under the
/// budget-forecast variant.
pub open spec fn wf_budget(
    b: BudgetRecommendation,
    i: int,
    total_predicted: int,
    forecast_variant: bool,
) -> bool {
    let base: int = if i == 0 {
        total_predicted * 15 / 100
    } else {
        total_predicted * 25 / 100
    };
    &&& b.category@ == if i == 0 {
        "Emergency Reserve"@
    } else {
        "Seasonal Events"@
    }
    &&& b.recommended_budget as int == if forecast_variant {
        base * 115 / 100
    } else {
        base
    }
    &&& b.reasoning@ == if forecast_variant {
        "Conservative forecast: "@ + budget_reasoning_of(i)
    } else {
        budget_reasoning_of(i)
    }
    &&& b.risk_level == if i == 0 {
        RiskLevel::Low
    } else {
        RiskLevel::Medium
    }
    &&& b.optimization_tips.deep_view() == budget_tips_of(i)
}

/// Builds the budget recommendation at position `i`.
fn make_budget(i: usize, total_predicted: u64, forecast_variant: bool) -> (b: BudgetRecommendation)
    requires
        i < 2,
        total_predicted <= 4 * MAX_ANALYSIS_TOTAL,
    ensures
        wf_budget(b, i as int, total_predicted as int, forecast_variant),
{
    let share: u64 = if i == 0 {
        (total_predicted * 15) / 100
    } else {
        (total_predicted * 25) / 100
    };
    let recommended_budget: u64 = if forecast_variant {
        (share * 115) / 100
    } else {
        share
    };
    let category: &'static str = if i == 0 {
        "Emergency Reserve"
    } else {
        "Seasonal Events"
    };
    let base_reasoning: &'static str = if i == 0 {
        "15% buffer for unexpected expenses based on Norwegian organizational best practices"
    } else {
        "Norwegian cultural events drive significant spending spikes"
    };
    let reasoning: String = if forecast_variant {
        let mut r = String::from_str("Conservative forecast: ");
        r.append(base_reasoning);
        r
    } else {
        String::from_str(base_reasoning)
    };
    let mut optimization_tips: Vec<String> = Vec::new();
    if i == 0 {
        optimization_tips.push(String::from_str("Set aside monthly reserves"));
        optimization_tips.push(String::from_str("Plan for seasonal variations"));
    } else {
        optimization_tips.push(String::from_str("Plan Christmas purchases early"));
        optimization_tips.push(String::from_str("Book 17. mai supplies in advance"));
    }
    proof {
        assert(optimization_tips.deep_view() =~= budget_tips_of(i as int));
    }
    BudgetRecommendation {
        category: String::from_str(category),
        recommended_budget,
        reasoning,
        risk_level: if i == 0 {
            RiskLevel::Low
        } else {
            RiskLevel::Medium
        },
        optimization_tips,
    }
}

/// Aggregates historical transactions into spend predictions,
/// seasonal insights and budget recommendations.  An empty
/// transaction list is a caller error and is refused.
pub fn predict(
    txs: &Vec<HistoricalTransaction>,
    organization_type: &str,
    timeframe: &str,
    analysis_type: &str,
) -> (r: Result<PredictiveReport, AnalysisError>)
    requires
        total_amount(txs@) <= MAX_ANALYSIS_TOTAL,
    ensures
        txs@.len() == 0 <==> r is Err,
        r matches Err(e) ==> e == AnalysisError::InputValidation,
        r matches Ok(rep) ==> {
            let cats = cat_list(txs@);
            let tf = tf_mult(timeframe@);
            let dec = month_total(txs@, 12);
            let jun = month_total(txs@, 6);
            let seasonal_variant = analysis_type@ == "seasonal_trends"@;
            let forecast_variant = analysis_type@ == "budget_forecast"@;
            let tp = predicted_sum(cats, txs@, tf, dec, jun);
            &&& rep.predictions@.len() == cats.len()
            &&& (forall|i: int|
                0 <= i < cats.len() ==> {
                    let p = #[trigger] rep.predictions@[i];
                    let total = cat_total(txs@, cats[i]);
                    &&& p.category@ == cats[i]
                    &&& p.period@ == timeframe@
                    &&& p.predicted_amount as int == predicted_minor(
                        total,
                        tf,
                        seasonal_mult(cats[i], dec, jun),
                    )
                    &&& p.confidence as int == confidence_of_total(total)
                    &&& p.trend == trend_of_total(total)
                    &&& p.factors.deep_view() == factors_of(organization_type@)
                })
            &&& rep.seasonal_insights@.len() == 3
            &&& (forall|i: int|
                0 <= i < 3 ==> wf_insight(
                    #[trigger] rep.seasonal_insights@[i],
                    i,
                    seasonal_variant,
                ))
            &&& rep.budget_recommendations@.len() == 2
            &&& wf_budget(rep.budget_recommendations@[0], 0, tp, forecast_variant)
            &&& wf_budget(rep.budget_recommendations@[1], 1, tp, forecast_variant)
            &&& rep.confidence_score == 830
            &&& rep.analysis_type@ == "advanced_norwegian_"@ + analysis_type@
        },
{
    if txs.len() == 0 {
        return Err(AnalysisError::InputValidation);
    }
    let ghost all = txs@;
    let (cats, totals, dec, jun) = aggregate(txs);
    let ghost cdv = cats.deep_view();
    let tf = tf_mult_exec(timeframe);
    let seasonal_variant = str_eq(analysis_type, "seasonal_trends");
    let forecast_variant = str_eq(analysis_type, "budget_forecast");

    let mut predictions: Vec<SpendPrediction> = Vec::new();
    let mut total_predicted: u64 = 0;
    let ncats = cats.len();
    let mut j: usize = 0;
    proof {
        assert(cdv.take(0) =~= Seq::<Seq<char>>::empty());
        assert(totals@.take(0) =~= Seq::<u64>::empty());
    }
    while j < ncats
        invariant
            ncats == cats@.len(),
            cdv == cats.deep_view(),
            cdv.len() == cats@.len(),
            cdv == cat_list(all),
            all == txs@,
            totals@.len() == cats@.len(),
            forall|k: int|
                0 <= k < totals@.len() ==> (#[trigger] totals@[k]) as int == cat_total(
                    all,
                    cdv[k],
                ),
            forall|k: int| 0 <= k < totals@.len() ==> (#[trigger] totals@[k]) <= MAX_ANALYSIS_TOTAL,
            sum_totals(totals@) == total_amount(all),
            total_amount(all) <= MAX_ANALYSIS_TOTAL,
            dec as int == month_total(all, 12),
            jun as int == month_total(all, 6),
            tf as int == tf_mult(timeframe@),
            1 <= tf <= 12,
            j <= ncats,
            predictions@.len() == j,
            forall|i: int|
                0 <= i < j ==> {
                    let p = #[trigger] predictions@[i];
                    let total = cat_total(all, cdv[i]);
                    &&& p.category@ == cdv[i]
                    &&& p.period@ == timeframe@
                    &&& p.predicted_amount as int == predicted_minor(
                        total,
                        tf as int,
                        seasonal_mult(cdv[i], dec as int, jun as int),
                    )
                    &&& p.confidence as int == confidence_of_total(total)
                    &&& p.trend == trend_of_total(total)
                    &&& p.factors.deep_view() == factors_of(organization_type@)
                },
            total_predicted as int == predicted_sum(
                cdv.take(j as int),
                all,
                tf as int,
                dec as int,
                jun as int,
            ),
            total_predicted as int <= 2 * sum_totals(totals@.take(j as int)),
        decreases ncats - j,
    {
        let c_total = totals[j];
        let sm = seasonal_mult_exec(&cats[j], dec, jun);
        let predicted_amount = predicted_exec(c_total, tf, sm);
        let confidence = confidence_exec(c_total);
        let trend = if c_total > 500000 {
            Trend::Increasing
        } else {
            Trend::Stable
        };
        proof {
            assert(cdv.take(j as int + 1).drop_last() =~= cdv.take(j as int));
            assert(cdv.take(j as int + 1).last() == cdv[j as int]);
            assert(totals@.take(j as int + 1).drop_last() =~= totals@.take(j as int));
            assert(totals@.take(j as int + 1).last() == totals@[j as int]);
            lemma_sum_take_le(totals@, j as int + 1);
        }
        let p = SpendPrediction {
            period: timeframe.to_owned(),
            predicted_amount,
            category: cats[j].clone(),
            confidence,
            trend,
            factors: factors_exec(organization_type),
        };
        predictions.push(p);
        total_predicted = total_predicted + predicted_amount;
        j += 1;
    }
    proof {
        assert(cdv.take(ncats as int) =~= cdv);
        assert(totals@.take(ncats as int) =~= totals@);
    }

    let mut seasonal_insights: Vec<SeasonalInsight> = Vec::new();
    seasonal_insights.push(make_insight(0, seasonal_variant));
    seasonal_insights.push(make_insight(1, seasonal_variant));
    seasonal_insights.push(make_insight(2, seasonal_variant));

    let mut budget_recommendations: Vec<BudgetRecommendation> = Vec::new();
    budget_recommendations.push(make_budget(0, total_predicted, forecast_variant));
    budget_recommendations.push(make_budget(1, total_predicted, forecast_variant));

    let mut analysis_label = String::from_str("advanced_norwegian_");
    analysis_label.append(analysis_type);

    Ok(
        PredictiveReport {
            predictions,
            seasonal_insights,
            budget_recommendations,
            confidence_score: 830,
            analysis_type: analysis_label,
        },
    )
}

} // verus!
