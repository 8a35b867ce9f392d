//! The boundary to the external calendar-date type: read-only access
//! to the year, month and day of a `time::Date`. No calendar
//! arithmetic or validation happens here; the date value is trusted
//! to be well formed by its own constructor.

use vstd::prelude::*;

verus! {

#[verifier::external_type_specification]
#[verifier::external_body]
pub struct ExDate(time::Date);

/// Relies on time::Date::year to read the year off a calendar date.
#[verifier::external_body]
pub(crate) fn date_year(date: &time::Date) -> (y: i32) {
    date.year()
}

/// Relies on time::Date::month, whose month number is 1 through 12.
#[verifier::external_body]
pub(crate) fn date_month(date: &time::Date) -> (m: u8)
    ensures
        1 <= m <= 12,
{
    u8::from(date.month())
}

/// Relies on time::Date::day, which is documented to lie in 1
/// through 31.
#[verifier::external_body]
pub(crate) fn date_day(date: &time::Date) -> (d: u8)
    ensures
        1 <= d <= 31,
{
    date.day()
}

} // verus!
