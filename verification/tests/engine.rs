use norsk_analyse::analysis::{classify, DeductibilityAssessment};
use norsk_analyse::catalog::{profile_of, Category, MerchantKey};
use norsk_analyse::compliance::{evaluate, DeductibilityVerdict, DocumentKind};
use norsk_analyse::detect::{detect_merchant, detect_merchant_with_learning};
use norsk_analyse::learning::LearningStore;
use norsk_analyse::season::{season_for, Season};
use norsk_analyse::vat::{classify_vat, VatComplianceStatus};

const RECEIPT: &str = "REMA 1000 Oslo Melk 34.90 kr Brød 28.50 kr TOTALT 63.40 kr";

#[test]
fn detection_finds_rema_in_receipt() {
    let p = detect_merchant(RECEIPT).expect("merchant expected");
    assert_eq!(p.key, MerchantKey::Rema);
    assert_eq!(p.name.as_str(), "REMA 1000");
    assert_eq!(p.category, Category::GroceryStore);
    assert_eq!(p.typical_vat_rate, 15);
    assert_eq!(p.base_confidence, 950);
}

#[test]
fn detection_case_folds_input() {
    // A lowercase text still matches the uppercase catalog key.
    let p = detect_merchant("rema 1000 oslo melk").expect("merchant expected");
    assert_eq!(p.key, MerchantKey::Rema);
}

#[test]
fn detection_longest_key_wins() {
    // SHELL (5 chars) beats COOP (4 chars) whatever the text order.
    let p = detect_merchant("COOP og SHELL kvittering").expect("merchant expected");
    assert_eq!(p.key, MerchantKey::Shell);
    let q = detect_merchant("SHELL og COOP kvittering").expect("merchant expected");
    assert_eq!(q.key, MerchantKey::Shell);
}

#[test]
fn detection_equal_length_resolves_lexicographically() {
    // REMA and TINE are equally long; REMA is lexicographically first.
    let p = detect_merchant("TINE og REMA").expect("merchant expected");
    assert_eq!(p.key, MerchantKey::Rema);
    let q = detect_merchant("REMA og TINE").expect("merchant expected");
    assert_eq!(q.key, MerchantKey::Rema);
}

#[test]
fn detection_is_deterministic_on_repeat() {
    let a = detect_merchant("KIWI COOP").expect("merchant expected");
    let b = detect_merchant("KIWI COOP").expect("merchant expected");
    assert_eq!(a, b);
    assert_eq!(a.key, MerchantKey::Coop);
}

#[test]
fn detection_alias_post_norge() {
    let p = detect_merchant("POST NORGE pakke porto").expect("merchant expected");
    assert_eq!(p.key, MerchantKey::Posten);
}

#[test]
fn detection_org_number_pattern() {
    let p = detect_merchant("Kvittering fra org 999208372 i dag").expect("merchant expected");
    assert_eq!(p.key, MerchantKey::Rema);
    let q = detect_merchant("faktura 971425831").expect("merchant expected");
    assert_eq!(q.key, MerchantKey::Vinmonopolet);
}

#[test]
fn detection_none_without_any_pattern() {
    assert!(detect_merchant("helt ukjent butikk").is_none());
}

#[test]
fn detection_blends_learned_confidence() {
    let store = LearningStore::new();
    let d = detect_merchant_with_learning(RECEIPT, &store).expect("merchant expected");
    // Base 0.95 blended with the 0.5 default: 0.725.
    assert_eq!(d.effective_confidence, 725);
}

#[test]
fn vat_grocery_keyword_gives_reduced_rate() {
    let merchant = profile_of(MerchantKey::Rema);
    let vat = classify_vat(6340, &merchant, RECEIPT);
    assert_eq!(vat.detected_rate, 15);
    // 6340 * 15 / 115, rounded to the nearest minor unit.
    assert_eq!(vat.vat_amount, 827);
    assert_eq!(vat.compliance_status, VatComplianceStatus::Compliant);
    assert_eq!(
        vat.rate_explanation.as_str(),
        "Reduced VAT rate for food and non-alcoholic beverages"
    );
}

#[test]
fn vat_keyword_case_folds() {
    // "MELK" matches the lowercase keyword via case folding even for
    // a non-grocery merchant.
    let merchant = profile_of(MerchantKey::Shell);
    let vat = classify_vat(10000, &merchant, "MELK 100 kr");
    assert_eq!(vat.detected_rate, 15);
    assert_eq!(
        vat.compliance_status,
        VatComplianceStatus::RateDiffers { expected_rate: 25 }
    );
}

#[test]
fn vat_standard_rate_exact_value() {
    let merchant = profile_of(MerchantKey::Shell);
    let vat = classify_vat(10000, &merchant, "Diesel 100 NOK");
    assert_eq!(vat.detected_rate, 25);
    // 10000 * 25 / 125 = 2000 exactly.
    assert_eq!(vat.vat_amount, 2000);
    assert_eq!(vat.compliance_status, VatComplianceStatus::Compliant);
}

#[test]
fn vat_amount_never_exceeds_amount() {
    let merchant = profile_of(MerchantKey::Vinmonopolet);
    for amount in [0u64, 1, 99, 100, 6340, 1000000] {
        let vat = classify_vat(amount, &merchant, "Vin");
        assert!(vat.vat_amount <= amount);
    }
}

#[test]
fn compliance_association_grocery_partial() {
    let d = evaluate("forening", Category::GroceryStore, 6340);
    assert_eq!(d.verdict, DeductibilityVerdict::PartialActivityOnly);
    assert!(!d.approval_required);
    assert_eq!(
        d.required_documents,
        vec![DocumentKind::Receipt, DocumentKind::PurposeDocumentation]
    );
    assert_eq!(
        d.verdict.text().as_str(),
        "Delvis fradragsberettiget - kun aktivitetsrelaterte innkjøp"
    );
}

#[test]
fn compliance_association_large_amount_needs_board() {
    // 6000 kroner, above the 5000 threshold, non-grocery.
    let d = evaluate("lag", Category::GasStation, 600000);
    assert_eq!(d.verdict, DeductibilityVerdict::BoardApprovalRequired);
    assert!(d.approval_required);
    assert_eq!(
        d.required_documents,
        vec![
            DocumentKind::Receipt,
            DocumentKind::BoardApproval,
            DocumentKind::VoucherNumber,
            DocumentKind::DatePurpose
        ]
    );
}

#[test]
fn compliance_korps_alcohol_not_deductible() {
    let d = evaluate("korps", Category::AlcoholMonopoly, 20000);
    assert_eq!(d.verdict, DeductibilityVerdict::AlcoholNotAllowed);
    assert_eq!(d.required_documents, vec![DocumentKind::Receipt]);
}

#[test]
fn compliance_korps_other_needs_activity_proof() {
    let d = evaluate("korps", Category::GroceryStore, 20000);
    assert_eq!(d.verdict, DeductibilityVerdict::DeductibleForKorps);
    assert_eq!(
        d.required_documents,
        vec![DocumentKind::Receipt, DocumentKind::ActivityProof]
    );
}

#[test]
fn compliance_unknown_type_consults_accountant() {
    let d = evaluate("bedrift", Category::GroceryStore, 20000);
    assert_eq!(d.verdict, DeductibilityVerdict::ConsultAccountant);
    assert_eq!(d.organization_type.as_str(), "bedrift");
}

#[test]
fn compliance_documentation_threshold_adds_items() {
    // 1500 kroner crosses the 1000-kroner documentation threshold.
    let d = evaluate("klubb", Category::GasStation, 150000);
    assert_eq!(d.verdict, DeductibilityVerdict::DeductibleForActivity);
    assert_eq!(
        d.required_documents,
        vec![
            DocumentKind::Receipt,
            DocumentKind::VoucherNumber,
            DocumentKind::DatePurpose
        ]
    );
    // Exactly 1000 kroner does not.
    let e = evaluate("klubb", Category::GasStation, 100000);
    assert_eq!(e.required_documents, vec![DocumentKind::Receipt]);
}

#[test]
fn season_table_is_total() {
    assert_eq!(season_for(5, 17).season, Season::ConstitutionDay);
    assert_eq!(season_for(5, 16).season, Season::StandardPeriod);
    assert_eq!(season_for(12, 1).season, Season::Christmas);
    assert_eq!(season_for(3, 1).season, Season::Easter);
    assert_eq!(season_for(4, 30).season, Season::Easter);
    assert_eq!(season_for(6, 15).season, Season::Summer);
    assert_eq!(season_for(8, 31).season, Season::Summer);
    assert_eq!(season_for(9, 2).season, Season::BackToSchool);
    assert_eq!(season_for(1, 10).season, Season::StandardPeriod);
    assert_eq!(season_for(0, 0).season, Season::StandardPeriod);
    assert_eq!(season_for(13, 40).season, Season::StandardPeriod);
}

#[test]
fn season_profile_fields() {
    let p = season_for(12, 24);
    assert_eq!(p.season_label.as_str(), "Jul (Christmas)");
    assert_eq!(
        p.cultural_event.as_ref().map(|s| s.as_str()),
        Some("Norwegian Christmas")
    );
    assert_eq!(p.typical_purchases.len(), 6);
    assert_eq!(p.typical_purchases[0].as_str(), "Ribbe");
    assert_eq!(
        p.price_expectations.as_str(),
        "High seasonal pricing for traditional foods"
    );
    let q = season_for(2, 1);
    assert_eq!(q.season_label.as_str(), "Standard periode");
    assert!(q.cultural_event.is_none());
}

#[test]
fn classify_end_to_end_receipt() {
    // The composed scenario: REMA receipt, association, a date in the
    // standard period.
    let store = LearningStore::new();
    let r = classify(RECEIPT, "forening", 2, 10, &store);
    assert_eq!(r.merchant.key, MerchantKey::Rema);
    assert_eq!(r.merchant.name.as_str(), "REMA 1000");
    assert_eq!(r.merchant.category, Category::GroceryStore);
    assert_eq!(r.effective_confidence, 725);
    assert_eq!(r.vat.detected_rate, 15);
    assert_eq!(r.vat.vat_amount, 827);
    assert_eq!(r.vat.compliance_status, VatComplianceStatus::Compliant);
    assert_eq!(r.seasonal.season, Season::StandardPeriod);
    assert_eq!(r.compliance.verdict, DeductibilityVerdict::PartialActivityOnly);
    assert!(!r.compliance.approval_required);
    assert!(r.cultural_significance.is_none());
    assert_eq!(
        r.deductibility_assessment,
        DeductibilityAssessment::DeductibleForOrganization
    );
}

#[test]
fn classify_twice_identical_output() {
    let store = LearningStore::new();
    let a = classify(RECEIPT, "forening", 2, 10, &store);
    let b = classify(RECEIPT, "forening", 2, 10, &store);
    assert_eq!(a, b);
}

#[test]
fn classify_unknown_merchant_falls_back() {
    let store = LearningStore::new();
    let r = classify("ukjent butikk uten tall", "forening", 2, 10, &store);
    assert_eq!(r.merchant.key, MerchantKey::Unknown);
    assert_eq!(r.merchant.name.as_str(), "Ukjent norsk forhandler");
    assert_eq!(r.merchant.chain.as_str(), "Generisk");
    assert_eq!(r.merchant.category, Category::Unidentified);
    assert_eq!(r.effective_confidence, 500);
    // Amount falls back to 100 kroner; standard rate applies.
    assert_eq!(r.vat.detected_rate, 25);
    assert_eq!(r.vat.vat_amount, 2000);
}

#[test]
fn classify_korps_alcohol_assessment() {
    let store = LearningStore::new();
    let r = classify("VINMONOPOLET Vin 299.90 kr", "korps", 2, 10, &store);
    assert_eq!(r.merchant.key, MerchantKey::Vinmonopolet);
    assert_eq!(
        r.deductibility_assessment,
        DeductibilityAssessment::NotDeductibleAlcoholKorps
    );
    assert_eq!(
        r.deductibility_assessment.text().as_str(),
        "IKKE FRADRAGSBERETTIGET - Alkohol ikke tillatt for korps"
    );
}

#[test]
fn classify_large_amount_assessment() {
    let store = LearningStore::new();
    let r = classify("SHELL Diesel 6000.00 kr", "forening", 2, 10, &store);
    assert_eq!(
        r.deductibility_assessment,
        DeductibilityAssessment::RequiresBoardApproval
    );
}

#[test]
fn classify_cultural_significance_note() {
    let store = LearningStore::new();
    let r = classify(RECEIPT, "forening", 12, 24, &store);
    assert_eq!(r.seasonal.season, Season::Christmas);
    assert_eq!(
        r.cultural_significance.as_ref().map(|s| s.as_str()),
        Some(
            "Kulturell betydning: Norwegian Christmas - typiske innkjøp inkluderer \
             Ribbe, Pinnekjøtt, Lutefisk, Lefse, Krumkake, Julepresanger"
        )
    );
}
