//! Organisation-type deduction rules: a small decision table over the
//! organisation type, the merchant's category and the amount.

use vstd::prelude::*;
use vstd::string::StringExecFns;
use crate::catalog::Category;
use crate::text::str_eq;

verus! {

/// The organisation-type families the rule table distinguishes.
#[derive(Clone, Copy, PartialEq, Eq, Structural, Debug)]
pub enum OrgKind {
    /// "forening", "lag" or "klubb".
    Association,
    /// "korps".
    Korps,
    /// Any other or unknown type.
    Other,
}

/// The deductibility verdicts of the rule table.
#[derive(Clone, Copy, PartialEq, Eq, Structural, Debug)]
pub enum DeductibilityVerdict {
    /// Grocery purchases of associations: partially deductible,
    /// activity-related purchases only.
    PartialActivityOnly,
    /// Association amounts above the board-approval threshold.
    BoardApprovalRequired,
    /// Deductible for the organisation's activity.
    DeductibleForActivity,
    /// Alcohol purchases of a korps: not deductible.
    AlcoholNotAllowed,
    /// Deductible for korps activity.
    DeductibleForKorps,
    /// Unknown organisation types: consult an accountant.
    ConsultAccountant,
}

/// The documentation items the rule table can demand.
#[derive(Clone, Copy, PartialEq, Eq, Structural, Debug)]
pub enum DocumentKind {
    Receipt,
    PurposeDocumentation,
    BoardApproval,
    ActivityProof,
    VoucherNumber,
    DatePurpose,
}

/// The compliance decision for one purchase.
#[derive(PartialEq, Debug)]
pub struct ComplianceDecision {
    pub organization_type: String,
    pub verdict: DeductibilityVerdict,
    pub required_documents: Vec<DocumentKind>,
    pub approval_required: bool,
}

/// Board-approval threshold, in minor units (5000 kroner).
pub const APPROVAL_THRESHOLD_MINOR: u64 = 500000;

/// Extra-documentation threshold, in minor units (1000 kroner).
pub const DOCUMENTATION_THRESHOLD_MINOR: u64 = 100000;

/// The organisation-type family of a type string.
pub open spec fn org_kind_of(s: Seq<char>) -> OrgKind {
    if s == "forening"@ || s == "lag"@ || s == "klubb"@ {
        OrgKind::Association
    } else if s == "korps"@ {
        OrgKind::Korps
    } else {
        OrgKind::Other
    }
}

/// The verdict of the rule table.
pub open spec fn verdict_of(kind: OrgKind, category: Category, amount: int) -> DeductibilityVerdict {
    match kind {
        OrgKind::Association => {
            if category == Category::GroceryStore {
                DeductibilityVerdict::PartialActivityOnly
            } else if amount > APPROVAL_THRESHOLD_MINOR {
                DeductibilityVerdict::BoardApprovalRequired
            } else {
                DeductibilityVerdict::DeductibleForActivity
            }
        },
        OrgKind::Korps => {
            if category == Category::AlcoholMonopoly {
                DeductibilityVerdict::AlcoholNotAllowed
            } else {
                DeductibilityVerdict::DeductibleForKorps
            }
        },
        OrgKind::Other => DeductibilityVerdict::ConsultAccountant,
    }
}

/// Whether the purchase needs board approval.
pub open spec fn approval_of(kind: OrgKind, category: Category, amount: int) -> bool {
    verdict_of(kind, category, amount) == DeductibilityVerdict::BoardApprovalRequired
}

/// The rule-specific documentation items, before the amount-driven
/// additions.
pub open spec fn rule_documents_of(kind: OrgKind, category: Category, amount: int) -> Seq<
    DocumentKind,
> {
    match verdict_of(kind, category, amount) {
        DeductibilityVerdict::PartialActivityOnly => seq![
            DocumentKind::Receipt,
            DocumentKind::PurposeDocumentation,
        ],
        DeductibilityVerdict::BoardApprovalRequired => seq![
            DocumentKind::Receipt,
            DocumentKind::BoardApproval,
        ],
        DeductibilityVerdict::DeductibleForKorps => seq![
            DocumentKind::Receipt,
            DocumentKind::ActivityProof,
        ],
        _ => seq![DocumentKind::Receipt],
    }
}

/// The full documentation list: the rule-specific items, and for
/// amounts above the documentation threshold a voucher number and a
/// date-and-purpose note.
pub open spec fn documents_of(kind: OrgKind, category: Category, amount: int) -> Seq<DocumentKind> {
    if amount > DOCUMENTATION_THRESHOLD_MINOR {
        rule_documents_of(kind, category, amount) + seq![
            DocumentKind::VoucherNumber,
            DocumentKind::DatePurpose,
        ]
    } else {
        rule_documents_of(kind, category, amount)
    }
}

/// The organisation-type family of a type string.
pub fn org_kind(org_type: &str) -> (r: OrgKind)
    ensures
        r == org_kind_of(org_type@),
{
    if str_eq(org_type, "forening") || str_eq(org_type, "lag") || str_eq(org_type, "klubb") {
        OrgKind::Association
    } else if str_eq(org_type, "korps") {
        OrgKind::Korps
    } else {
        OrgKind::Other
    }
}

/// Applies the deduction rule table to one purchase.
pub fn evaluate(org_type: &str, category: Category, amount: u64) -> (r: ComplianceDecision)
    ensures
        r.organization_type@ == org_type@,
        r.verdict == verdict_of(org_kind_of(org_type@), category, amount as int),
        r.required_documents@ == documents_of(org_kind_of(org_type@), category, amount as int),
        r.approval_required == approval_of(org_kind_of(org_type@), category, amount as int),
{
    let kind = org_kind(org_type);
    let mut documents: Vec<DocumentKind> = Vec::new();
    documents.push(DocumentKind::Receipt);
    let verdict: DeductibilityVerdict;
    let mut approval_required: bool = false;
    match kind {
        OrgKind::Association => {
            if matches!(category, Category::GroceryStore) {
                documents.push(DocumentKind::PurposeDocumentation);
                verdict = DeductibilityVerdict::PartialActivityOnly;
            } else if amount > APPROVAL_THRESHOLD_MINOR {
                approval_required = true;
                documents.push(DocumentKind::BoardApproval);
                verdict = DeductibilityVerdict::BoardApprovalRequired;
            } else {
                verdict = DeductibilityVerdict::DeductibleForActivity;
            }
        },
        OrgKind::Korps => {
            if matches!(category, Category::AlcoholMonopoly) {
                verdict = DeductibilityVerdict::AlcoholNotAllowed;
            } else {
                documents.push(DocumentKind::ActivityProof);
                verdict = DeductibilityVerdict::DeductibleForKorps;
            }
        },
        OrgKind::Other => {
            verdict = DeductibilityVerdict::ConsultAccountant;
        },
    }
    proof {
        assert(documents@ =~= rule_documents_of(kind, category, amount as int));
    }
    if amount > DOCUMENTATION_THRESHOLD_MINOR {
        documents.push(DocumentKind::VoucherNumber);
        documents.push(DocumentKind::DatePurpose);
    }
    proof {
        assert(documents@ =~= documents_of(kind, category, amount as int));
    }
    ComplianceDecision {
        organization_type: org_type.to_owned(),
        verdict,
        required_documents: documents,
        approval_required,
    }
}

/// The prose for a verdict.
pub open spec fn verdict_text_of(v: DeductibilityVerdict) -> Seq<char> {
    match v {
        DeductibilityVerdict::PartialActivityOnly => {
            "Delvis fradragsberettiget - kun aktivitetsrelaterte innkjøp"@
        },
        DeductibilityVerdict::BoardApprovalRequired => {
            "Krever styregodkjenning for beløp over 5000 NOK"@
        },
        DeductibilityVerdict::DeductibleForActivity => {
            "Fradragsberettiget for organisasjonsaktivitet"@
        },
        DeductibilityVerdict::AlcoholNotAllowed => {
            "Ikke fradragsberettiget - alkohol ikke tillatt for korps"@
        },
        DeductibilityVerdict::DeductibleForKorps => "Fradragsberettiget for korpsaktivitet"@,
        DeductibilityVerdict::ConsultAccountant => "Kontakt regnskapsfører for vurdering"@,
    }
}

impl DeductibilityVerdict {
    /// The prose for this verdict.
    pub fn text(&self) -> (r: String)
        ensures
            r@ == verdict_text_of(*self),
    {
        match self {
            DeductibilityVerdict::PartialActivityOnly => {
                String::from_str("Delvis fradragsberettiget - kun aktivitetsrelaterte innkjøp")
            },
            DeductibilityVerdict::BoardApprovalRequired => {
                String::from_str("Krever styregodkjenning for beløp over 5000 NOK")
            },
            DeductibilityVerdict::DeductibleForActivity => {
                String::from_str("Fradragsberettiget for organisasjonsaktivitet")
            },
            DeductibilityVerdict::AlcoholNotAllowed => {
                String::from_str("Ikke fradragsberettiget - alkohol ikke tillatt for korps")
            },
            DeductibilityVerdict::DeductibleForKorps => {
                String::from_str("Fradragsberettiget for korpsaktivitet")
            },
            DeductibilityVerdict::ConsultAccountant => {
                String::from_str("Kontakt regnskapsfører for vurdering")
            },
        }
    }
}

/// The prose for a documentation item.
pub open spec fn document_text_of(d: DocumentKind) -> Seq<char> {
    match d {
        DocumentKind::Receipt => "Kvittering"@,
        DocumentKind::PurposeDocumentation => "Formål dokumentasjon"@,
        DocumentKind::BoardApproval => "Styregodkjenning"@,
        DocumentKind::ActivityProof => "Aktivitetsbevis"@,
        DocumentKind::VoucherNumber => "Bilagsnummer"@,
        DocumentKind::DatePurpose => "Dato og formål"@,
    }
}

impl DocumentKind {
    /// The prose for this documentation item.
    pub fn text(&self) -> (r: String)
        ensures
            r@ == document_text_of(*self),
    {
        match self {
            DocumentKind::Receipt => String::from_str("Kvittering"),
            DocumentKind::PurposeDocumentation => String::from_str("Formål dokumentasjon"),
            DocumentKind::BoardApproval => String::from_str("Styregodkjenning"),
            DocumentKind::ActivityProof => String::from_str("Aktivitetsbevis"),
            DocumentKind::VoucherNumber => String::from_str("Bilagsnummer"),
            DocumentKind::DatePurpose => String::from_str("Dato og formål"),
        }
    }
}

} // verus!
