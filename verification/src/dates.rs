//! Calendar-date parsing for historical transactions, through the
//! chrono crate.

use vstd::prelude::*;

verus! {

/// The calendar month that `chrono::NaiveDate::parse_from_str` with
/// the `%Y-%m-%d` format reads out of a date string, if the string
/// parses; a function of the characters alone.
pub uninterp spec fn date_month(s: Seq<char>) -> Option<u32>;

/// Relies on chrono's NaiveDate::parse_from_str and Datelike::month:
/// parsing is deterministic in the input string, and a parsed month
/// is between 1 and 12.
#[verifier::external_body]
pub fn parse_month(s: &str) -> (r: Option<u32>)
    ensures
        r == date_month(s@),
        r matches Some(m) ==> 1 <= m <= 12,
{
    match chrono::NaiveDate::parse_from_str(s, "%Y-%m-%d") {
        Ok(date) => Some(chrono::Datelike::month(&date)),
        Err(_) => None,
    }
}

} // verus!
