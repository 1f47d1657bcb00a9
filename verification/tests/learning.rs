use norsk_analyse::analysis::classify;
use norsk_analyse::learning::{Correction, LearningStore, TrainingExample, TrainingLog};

const RECEIPT: &str = "REMA 1000 Oslo Melk 34.90 kr Brød 28.50 kr TOTALT 63.40 kr";

fn correction(merchant: Option<&str>, rating: Option<u8>) -> Correction {
    Correction {
        original_analysis: String::from("analyse"),
        corrected_merchant: merchant.map(String::from),
        corrected_amount: None,
        corrected_vat_rate: None,
        corrected_category: None,
        user_feedback: None,
        confidence_rating: rating,
    }
}

#[test]
fn unseen_merchant_has_default_adjustment() {
    let store = LearningStore::new();
    assert_eq!(store.adjustment_for("REMA 1000"), 500);
}

#[test]
fn high_rating_raises_adjustment_by_tenth() {
    let mut store = LearningStore::new();
    let outcome = store.submit_correction(correction(Some("REMA 1000"), Some(9)));
    assert!(outcome.applied);
    // 0.05 + (9 - 7) * 0.02 = 0.09.
    assert_eq!(outcome.confidence_improvement, Some(90));
    assert_eq!(outcome.similar_cases_updated, 1);
    assert_eq!(store.adjustment_for("REMA 1000"), 600);
}

#[test]
fn low_rating_lowers_adjustment_by_twentieth() {
    let mut store = LearningStore::new();
    assert!(store.submit(correction(Some("KIWI"), Some(3))));
    assert_eq!(store.adjustment_for("KIWI"), 450);
    let outcome = store.submit_correction(correction(Some("KIWI"), Some(7)));
    // A rating of exactly 7 still counts as low.
    assert_eq!(outcome.confidence_improvement, None);
    assert_eq!(store.adjustment_for("KIWI"), 400);
}

#[test]
fn missing_rating_defaults_to_five() {
    let mut store = LearningStore::new();
    assert!(store.submit(correction(Some("Tine"), None)));
    assert_eq!(store.adjustment_for("Tine"), 450);
}

#[test]
fn adjustment_stays_within_bounds_after_any_sequence() {
    let mut store = LearningStore::new();
    for _ in 0..10 {
        store.submit(correction(Some("REMA 1000"), Some(10)));
        let a = store.adjustment_for("REMA 1000");
        assert!((100..=990).contains(&a));
    }
    // Five raises reach the cap: 500 + 5 * 100, then capped.
    assert_eq!(store.adjustment_for("REMA 1000"), 990);
    for _ in 0..30 {
        store.submit(correction(Some("REMA 1000"), Some(1)));
        let a = store.adjustment_for("REMA 1000");
        assert!((100..=990).contains(&a));
    }
    assert_eq!(store.adjustment_for("REMA 1000"), 100);
}

#[test]
fn correction_without_merchant_changes_no_adjustment() {
    let mut store = LearningStore::new();
    store.submit(correction(Some("Coop"), Some(9)));
    let before = store.adjustment_for("Coop");
    let outcome = store.submit_correction(correction(None, Some(9)));
    assert!(outcome.applied);
    assert_eq!(store.adjustment_for("Coop"), before);
}

#[test]
fn similar_cases_count_matching_merchant() {
    let mut store = LearningStore::new();
    store.submit(correction(Some("Coop"), Some(9)));
    store.submit(correction(Some("KIWI"), Some(9)));
    store.submit(correction(None, Some(9)));
    let outcome = store.submit_correction(correction(Some("Coop"), Some(2)));
    // The earlier Coop correction plus the new one.
    assert_eq!(outcome.similar_cases_updated, 2);
    assert_eq!(store.similar_case_count(&Some(String::from("KIWI"))), 1);
    assert_eq!(store.similar_case_count(&None), 1);
    assert_eq!(store.similar_case_count(&Some(String::from("SHELL"))), 0);
}

#[test]
fn correction_raises_subsequent_effective_confidence() {
    let mut store = LearningStore::new();
    let before = classify(RECEIPT, "forening", 2, 10, &store);
    assert_eq!(before.effective_confidence, 725);
    store.submit_correction(correction(Some("REMA 1000"), Some(9)));
    let after = classify(RECEIPT, "forening", 2, 10, &store);
    // (950 + 600) / 2 against (950 + 500) / 2.
    assert_eq!(after.effective_confidence, 775);
    assert!(after.effective_confidence > before.effective_confidence);
}

#[test]
fn adjustment_cap_bounds_effective_confidence() {
    let mut store = LearningStore::new();
    for _ in 0..8 {
        store.submit(correction(Some("REMA 1000"), Some(10)));
    }
    assert_eq!(store.adjustment_for("REMA 1000"), 990);
    let r = classify(RECEIPT, "forening", 2, 10, &store);
    assert_eq!(r.effective_confidence, (950 + 990) / 2);
}

fn example(text: &str) -> TrainingExample {
    TrainingExample {
        input_text: String::from(text),
        expected_merchant: None,
        expected_amount: None,
        expected_vat_rate: None,
        expected_category: None,
        context_metadata: None,
        quality_score: Some(700),
    }
}

#[test]
fn training_log_keeps_examples_under_capacity() {
    let mut log = TrainingLog::new(5, 2);
    for i in 0..5 {
        assert!(log.store(example(&format!("eksempel {}", i))));
    }
    assert_eq!(log.examples.len(), 5);
    assert_eq!(log.examples[0].input_text.as_str(), "eksempel 0");
}

#[test]
fn training_log_evicts_oldest_batch() {
    let mut log = TrainingLog::new(5, 2);
    for i in 0..6 {
        assert!(log.store(example(&format!("eksempel {}", i))));
    }
    // The sixth example pushed the log over its capacity of five, so
    // the oldest two were dropped at once.
    assert_eq!(log.examples.len(), 4);
    assert_eq!(log.examples[0].input_text.as_str(), "eksempel 2");
    assert_eq!(log.examples[3].input_text.as_str(), "eksempel 5");
}
