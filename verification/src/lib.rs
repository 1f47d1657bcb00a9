//! Classification and analytics engine for Norwegian retail transactions.
//!
//! The library detects a merchant in free receipt text, extracts the
//! monetary total, derives the applicable VAT bracket and a seasonal
//! profile for a calendar date, applies organisation-type deduction
//! rules, folds user corrections into per-merchant confidence
//! adjustments, and aggregates historical transactions into spend
//! predictions.  All monetary values are integers in minor units
//! (hundredths of a krone); all confidence values are integers in
//! thousandths, so that every formula is exact integer arithmetic.

pub mod amount;
pub mod analysis;
pub mod catalog;
pub mod compliance;
pub mod dates;
pub mod detect;
pub mod document;
pub mod learning;
pub mod predict;
pub mod season;
pub mod text;
pub mod vat;
