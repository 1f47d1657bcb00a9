//! The composed analysis: merchant detection, amount extraction, VAT
//! classification, seasonal context and compliance evaluation for one
//! free-text record.

use vstd::prelude::*;
use vstd::string::StringExecFns;
use crate::amount::{extract_amount, extract_amount_spec};
use crate::catalog::{
    base_confidence_of, category_of, name_of, profile_of, typical_rate_of, wf_profile, Category,
    MerchantKey, MerchantProfile,
};
use crate::compliance::{approval_of, documents_of, evaluate, org_kind_of, verdict_of,
    ComplianceDecision};
use crate::detect::{blend, detect_merchant_with_learning, detected_key};
use crate::learning::LearningStore;
use crate::season::{cultural_event_of, purchases_of, season_for, season_of, wf_seasonal,
    SeasonalProfile};
use crate::text::{join_with, join_comma, lower_of, str_eq, upper_of};
use crate::vat::{classify_vat, detected_rate_of, explanation_of, vat_minor, VatAnalysis,
    VatComplianceStatus};

verus! {

/// The overall deductibility note of a composed analysis.
#[derive(Clone, Copy, PartialEq, Eq, Structural, Debug)]
pub enum DeductibilityAssessment {
    /// Alcohol purchases of a korps: flatly not deductible.
    NotDeductibleAlcoholKorps,
    /// Amounts above the board-approval threshold.
    RequiresBoardApproval,
    /// Deductible for organisational purposes.
    DeductibleForOrganization,
}

/// The prose for an assessment.
pub open spec fn assessment_text_of(a: DeductibilityAssessment) -> Seq<char> {
    match a {
        DeductibilityAssessment::NotDeductibleAlcoholKorps => {
            "IKKE FRADRAGSBERETTIGET - Alkohol ikke tillatt for korps"@
        },
        DeductibilityAssessment::RequiresBoardApproval => {
            "Krever styregodkjenning for beløp over 5000 NOK"@
        },
        DeductibilityAssessment::DeductibleForOrganization => {
            "Fradragsberettiget for organisasjonsformål"@
        },
    }
}

impl DeductibilityAssessment {
    /// The prose for this assessment.
    pub fn text(&self) -> (r: String)
        ensures
            r@ == assessment_text_of(*self),
    {
        match self {
            DeductibilityAssessment::NotDeductibleAlcoholKorps => {
                String::from_str("IKKE FRADRAGSBERETTIGET - Alkohol ikke tillatt for korps")
            },
            DeductibilityAssessment::RequiresBoardApproval => {
                String::from_str("Krever styregodkjenning for beløp over 5000 NOK")
            },
            DeductibilityAssessment::DeductibleForOrganization => {
                String::from_str("Fradragsberettiget for organisasjonsformål")
            },
        }
    }
}

/// The composed analysis of one record.
#[derive(PartialEq, Debug)]
pub struct NorwegianAnalysis {
    pub merchant: MerchantProfile,
    /// Effective confidence in thousandths: the blend of base
    /// confidence and learned adjustment, or 0.5 for an unknown
    /// merchant.
    pub effective_confidence: u32,
    pub vat: VatAnalysis,
    pub seasonal: SeasonalProfile,
    pub compliance: ComplianceDecision,
    pub cultural_significance: Option<String>,
    pub deductibility_assessment: DeductibilityAssessment,
}

/// The merchant key an analysis settles on: the detected one, or the
/// unknown-merchant fallback.
pub open spec fn analysis_key(text: Seq<char>) -> MerchantKey {
    match detected_key(upper_of(text), text) {
        Some(k) => k,
        None => MerchantKey::Unknown,
    }
}

/// The amount an analysis works with: the extracted total, or the
/// 100-kroner default.
pub open spec fn analysis_amount(text: Seq<char>) -> int {
    match extract_amount_spec(text) {
        Some(v) => v,
        None => 10000,
    }
}

/// The overall deductibility note: alcohol for a korps is never
/// deductible; amounts above the approval threshold need the board;
/// anything else is deductible for the organisation.
pub open spec fn assessment_of(category: Category, org: Seq<char>, amount: int) -> DeductibilityAssessment {
    if category == Category::AlcoholMonopoly && org == "korps"@ {
        DeductibilityAssessment::NotDeductibleAlcoholKorps
    } else if amount > 500000 {
        DeductibilityAssessment::RequiresBoardApproval
    } else {
        DeductibilityAssessment::DeductibleForOrganization
    }
}

/// The cultural-significance note for a season with a cultural event.
pub open spec fn cultural_text_of(s: crate::season::Season) -> Seq<char> {
    "Kulturell betydning: "@ + cultural_event_of(s).unwrap()
        + " - typiske innkjøp inkluderer "@ + join_with(purchases_of(s), ", "@)
}

/// Classifies one free-text record: detects the merchant (blending
/// learned confidence), extracts the amount (defaulting to 100
/// kroner), derives the seasonal profile of the given date, and
/// applies the VAT and compliance rules.  A pure function of its
/// inputs: identical text, organisation type, date and store state
/// yield an identical analysis.
/// Everything `classify` promises of its result, as a relation
/// between the result and the inputs alone.
pub open spec fn classify_post(
    r: NorwegianAnalysis,
    text: Seq<char>,
    org: Seq<char>,
    month: u8,
    day: u8,
    store: LearningStore,
) -> bool {
    let k = analysis_key(text);
    let amount = analysis_amount(text);
    let season = season_of(month, day);
    let kind = org_kind_of(org);
    &&& r.merchant.key == k
    &&& wf_profile(r.merchant)
    &&& r.effective_confidence as int == (if detected_key(upper_of(text), text) is Some {
        blend(base_confidence_of(k) as int, store.adj_spec(name_of(k)))
    } else {
        500
    })
    &&& r.vat.detected_rate == detected_rate_of(lower_of(text), category_of(k))
    &&& r.vat.rate_explanation@ == explanation_of(r.vat.detected_rate)
    &&& r.vat.vat_amount as int == vat_minor(amount, r.vat.detected_rate as int)
    &&& r.vat.compliance_status == (if r.vat.detected_rate == typical_rate_of(k) {
        VatComplianceStatus::Compliant
    } else {
        VatComplianceStatus::RateDiffers { expected_rate: typical_rate_of(k) }
    })
    &&& r.seasonal.season == season
    &&& wf_seasonal(r.seasonal)
    &&& r.compliance.organization_type@ == org
    &&& r.compliance.verdict == verdict_of(kind, category_of(k), amount)
    &&& r.compliance.required_documents@ == documents_of(kind, category_of(k), amount)
    &&& r.compliance.approval_required == approval_of(kind, category_of(k), amount)
    &&& (match r.cultural_significance {
        Some(msg) => cultural_event_of(season) is Some && msg@ == cultural_text_of(season),
        None => cultural_event_of(season) is None,
    })
    &&& r.deductibility_assessment == assessment_of(category_of(k), org, amount)
}

/// Law: classification is idempotent.  Any two results that satisfy
/// the classification contract for identical text, organisation type,
/// date and store state agree in every observable respect; since
/// `classify` performs no mutation, two successive calls with no
/// intervening correction yield identical output.
pub proof fn lemma_classify_deterministic(
    r1: NorwegianAnalysis,
    r2: NorwegianAnalysis,
    text: Seq<char>,
    org: Seq<char>,
    month: u8,
    day: u8,
    store: LearningStore,
)
    requires
        classify_post(r1, text, org, month, day, store),
        classify_post(r2, text, org, month, day, store),
    ensures
        r1.merchant.key == r2.merchant.key,
        r1.merchant.name@ == r2.merchant.name@,
        r1.merchant.chain@ == r2.merchant.chain@,
        r1.merchant.category == r2.merchant.category,
        r1.merchant.typical_vat_rate == r2.merchant.typical_vat_rate,
        r1.merchant.seasonal_products.deep_view() == r2.merchant.seasonal_products.deep_view(),
        r1.merchant.org_pattern.deep_view() == r2.merchant.org_pattern.deep_view(),
        r1.merchant.base_confidence == r2.merchant.base_confidence,
        r1.effective_confidence == r2.effective_confidence,
        r1.vat.detected_rate == r2.vat.detected_rate,
        r1.vat.rate_explanation@ == r2.vat.rate_explanation@,
        r1.vat.vat_amount == r2.vat.vat_amount,
        r1.vat.compliance_status == r2.vat.compliance_status,
        r1.seasonal.season == r2.seasonal.season,
        r1.seasonal.season_label@ == r2.seasonal.season_label@,
        r1.seasonal.cultural_event.deep_view() == r2.seasonal.cultural_event.deep_view(),
        r1.seasonal.typical_purchases.deep_view() == r2.seasonal.typical_purchases.deep_view(),
        r1.seasonal.price_expectations@ == r2.seasonal.price_expectations@,
        r1.compliance.organization_type@ == r2.compliance.organization_type@,
        r1.compliance.verdict == r2.compliance.verdict,
        r1.compliance.required_documents@ == r2.compliance.required_documents@,
        r1.compliance.approval_required == r2.compliance.approval_required,
        r1.cultural_significance is Some <==> r2.cultural_significance is Some,
        (r1.cultural_significance is Some && r2.cultural_significance is Some)
            ==> r1.cultural_significance.unwrap()@ == r2.cultural_significance.unwrap()@,
        r1.deductibility_assessment == r2.deductibility_assessment,
{
}

pub fn classify(
    text: &str,
    organization_type: &str,
    month: u8,
    day: u8,
    store: &LearningStore,
) -> (r: NorwegianAnalysis)
    requires
        store.wf(),
    ensures
        classify_post(r, text@, organization_type@, month, day, *store),
{
    let amount: u64 = match extract_amount(text) {
        Some(a) => a,
        None => 10000,
    };
    let detection = detect_merchant_with_learning(text, store);
    let merchant: MerchantProfile;
    let effective_confidence: u32;
    match detection {
        Some(d) => {
            merchant = d.profile;
            effective_confidence = d.effective_confidence;
        },
        None => {
            merchant = profile_of(MerchantKey::Unknown);
            effective_confidence = 500;
        },
    }
    let seasonal = season_for(month, day);
    let vat = classify_vat(amount, &merchant, text);
    let compliance = evaluate(organization_type, merchant.category, amount);
    let cultural_significance: Option<String> = match &seasonal.cultural_event {
        Some(ev) => {
            let mut msg = String::from_str("Kulturell betydning: ");
            msg.append(ev.as_str());
            msg.append(" - typiske innkjøp inkluderer ");
            let joined = join_comma(&seasonal.typical_purchases);
            msg.append(joined.as_str());
            Some(msg)
        },
        None => None,
    };
    let deductibility_assessment: DeductibilityAssessment = if matches!(
        merchant.category,
        Category::AlcoholMonopoly,
    ) && str_eq(organization_type, "korps") {
        DeductibilityAssessment::NotDeductibleAlcoholKorps
    } else if amount > 500000 {
        DeductibilityAssessment::RequiresBoardApproval
    } else {
        DeductibilityAssessment::DeductibleForOrganization
    };
    NorwegianAnalysis {
        merchant,
        effective_confidence,
        vat,
        seasonal,
        compliance,
        cultural_significance,
        deductibility_assessment,
    }
}

} // verus!
