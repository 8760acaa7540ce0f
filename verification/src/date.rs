//! Calendar dates, which the catalog carries through without reading them.

use chrono::NaiveDate;
use vstd::prelude::*;

verus! {

/// `chrono::NaiveDate`, a calendar date without a time zone. Nothing is
/// claimed of what a value holds.
#[verifier::external_type_specification]
#[verifier::external_body]
pub struct ExNaiveDate(chrono::NaiveDate);

/// The text that `NaiveDate::format` writes for `date` under the format
/// "%Y-%m-%d": the year, the month and the day.
pub uninterp spec fn date_text(date: NaiveDate) -> Seq<char>;

/// Calls `NaiveDate::format` with "%Y-%m-%d" and writes what it returns
/// into a string: the date as clients read it. Claimed of it: the text is
/// a function of the date alone.
#[verifier::external_body]
pub fn serialize(date: &NaiveDate) -> (text: String)
    ensures
        text@ == date_text(*date),
{
    date.format("%Y-%m-%d").to_string()
}

} // verus!
