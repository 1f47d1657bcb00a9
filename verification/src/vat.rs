//! VAT classification: selects the applicable tax bracket for a
//! purchase, computes the VAT portion of a gross amount, and compares
//! the detected rate against the merchant's typical rate.

use vstd::prelude::*;
use vstd::arithmetic::div_mod::{
    lemma_div_is_ordered, lemma_div_pos_is_pos, lemma_fundamental_div_mod_converse,
};
use vstd::arithmetic::mul::lemma_mul_inequality;
use vstd::string::StringExecFns;
use crate::catalog::{Category, MerchantProfile};
use crate::text::{chars_of, contains_chars, contains_seq, lower_chars, lower_of};

verus! {

/// Whether the detected rate agrees with the merchant's typical rate.
#[derive(Clone, Copy, PartialEq, Eq, Structural, Debug)]
pub enum VatComplianceStatus {
    Compliant,
    /// The detected rate differs from the merchant's typical rate.
    RateDiffers { expected_rate: u8 },
}

/// The VAT analysis of one purchase.
#[derive(PartialEq, Debug)]
pub struct VatAnalysis {
    /// Detected VAT bracket, in integer percent.
    pub detected_rate: u8,
    pub rate_explanation: String,
    /// VAT portion of the gross amount, in minor units.
    pub vat_amount: u64,
    pub compliance_status: VatComplianceStatus,
}

/// The VAT portion of a gross amount: `amount * rate / (100 + rate)`,
/// rounded to the nearest minor unit (half up).
pub open spec fn vat_minor(amount: int, rate: int) -> int {
    (amount * rate + (100 + rate) / 2) / (100 + rate)
}

/// The detected bracket: the reduced food rate when a food keyword
/// occurs in the lowercased text or the merchant is a grocery store,
/// the standard rate otherwise (the alcohol monopoly also carries the
/// standard rate; its excise is out of scope).
pub open spec fn detected_rate_of(lower_items: Seq<char>, category: Category) -> u8 {
    if contains_seq(lower_items, "melk"@) || contains_seq(lower_items, "brød"@) || contains_seq(
        lower_items,
        "mat"@,
    ) || category == Category::GroceryStore {
        15
    } else {
        25
    }
}

/// The explanation text for a bracket.
pub open spec fn explanation_of(rate: u8) -> Seq<char> {
    if rate == 0 {
        "VAT-exempt goods (books, newspapers, medicine)"@
    } else if rate == 15 {
        "Reduced VAT rate for food and non-alcoholic beverages"@
    } else if rate == 25 {
        "Standard VAT rate for general goods and services"@
    } else {
        "Special VAT rate"@
    }
}

/// The rounded quotient `(a * r + (100 + r) / 2) / (100 + r)` lies
/// between 0 and `a` for any non-negative amount and rate.
proof fn lemma_vat_div_bounds(a: int, r: int)
    requires
        0 <= a,
        0 <= r,
    ensures
        0 <= vat_minor(a, r) <= a,
{
    let d = 100 + r;
    let h = d / 2;
    let n = a * r + h;
    lemma_div_pos_is_pos(d, 2);
    lemma_div_is_ordered(d, 2 * (d - 1), 2);
    lemma_fundamental_div_mod_converse(2 * (d - 1), 2, d - 1, 0);
    assert(h <= d - 1);
    lemma_mul_inequality(r, d, a);
    assert(n <= a * d + (d - 1));
    lemma_div_is_ordered(n, a * d + (d - 1), d);
    lemma_fundamental_div_mod_converse(a * d + (d - 1), d, a, d - 1);
    lemma_mul_inequality(0, r, a);
    lemma_div_pos_is_pos(n, d);
}

/// Law: for every supported bracket and every non-negative amount,
/// the VAT portion equals `amount * rate / (100 + rate)` rounded to
/// the nearest minor unit, and never exceeds the amount.
pub proof fn lemma_vat_amount_bounds(amount: int, rate: int)
    requires
        0 <= amount,
        rate == 0 || rate == 15 || rate == 25,
    ensures
        vat_minor(amount, rate) == (amount * rate + (100 + rate) / 2) / (100 + rate),
        0 <= vat_minor(amount, rate) <= amount,
{
    lemma_vat_div_bounds(amount, rate);
}

/// The explanation text for a bracket, as an owned string.
fn explanation_text(rate: u8) -> (r: String)
    ensures
        r@ == explanation_of(rate),
{
    if rate == 0 {
        String::from_str("VAT-exempt goods (books, newspapers, medicine)")
    } else if rate == 15 {
        String::from_str("Reduced VAT rate for food and non-alcoholic beverages")
    } else if rate == 25 {
        String::from_str("Standard VAT rate for general goods and services")
    } else {
        String::from_str("Special VAT rate")
    }
}

/// Classifies the VAT of a purchase: detects the bracket from the
/// free text and the merchant's category, computes the VAT portion of
/// `amount`, and compares the bracket with the merchant's typical
/// rate.
pub fn classify_vat(amount: u64, merchant: &MerchantProfile, items_text: &str) -> (r: VatAnalysis)
    ensures
        r.detected_rate == detected_rate_of(lower_of(items_text@), merchant.category),
        r.rate_explanation@ == explanation_of(r.detected_rate),
        r.vat_amount as int == vat_minor(amount as int, r.detected_rate as int),
        r.vat_amount <= amount,
        r.compliance_status == if r.detected_rate == merchant.typical_vat_rate {
            VatComplianceStatus::Compliant
        } else {
            VatComplianceStatus::RateDiffers { expected_rate: merchant.typical_vat_rate }
        },
{
    let category = merchant.category;
    let typical_rate = merchant.typical_vat_rate;
    let lower = lower_chars(items_text);
    let melk = chars_of("melk");
    let brod = chars_of("brød");
    let mat = chars_of("mat");
    let detected_rate: u8 = if contains_chars(&lower, &melk) || contains_chars(&lower, &brod)
        || contains_chars(&lower, &mat) || matches!(category, Category::GroceryStore) {
        15
    } else {
        25
    };
    let d: u64 = 100 + detected_rate as u64;
    proof {
        assert((amount as int) * (detected_rate as int) + 62 < u128::MAX) by (nonlinear_arith)
            requires
                0 <= amount as int <= u64::MAX,
                0 <= detected_rate as int <= 25,
        ;
    }
    let numerator: u128 = (amount as u128) * (detected_rate as u128) + ((d / 2) as u128);
    let vat128: u128 = numerator / (d as u128);
    proof {
        lemma_vat_div_bounds(amount as int, detected_rate as int);
    }
    let vat_amount: u64 = vat128 as u64;
    let compliance_status = if detected_rate == typical_rate {
        VatComplianceStatus::Compliant
    } else {
        VatComplianceStatus::RateDiffers { expected_rate: typical_rate }
    };
    VatAnalysis {
        detected_rate,
        rate_explanation: explanation_text(detected_rate),
        vat_amount,
        compliance_status,
    }
}

} // verus!
