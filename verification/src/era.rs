//! The renderer under its era-centric name: [`Era`] carries the same
//! fields and renders by the same rules as
//! [`DateRenderer`](crate::DateRenderer), so callers may use either
//! name for the same value data.

use vstd::prelude::*;
use crate::calendar::date_day;
use crate::calendar::date_month;
use crate::calendar::date_year;
use crate::language::era_seq;
use crate::language::Language;
use crate::precision::Precision;
use crate::render::century_seq;
use crate::render::century_string;
use crate::render::decade_seq;
use crate::render::decade_string;
use crate::render::millennium_seq;
use crate::render::millennium_string;
use crate::render::render_spec;
use crate::render::render_value;

verus! {

#[derive(Debug, Clone, PartialEq, Eq, Structural)]
pub struct Era {
    pub year: i32,
    pub month: u8,
    pub day: u8,
    pub precision: Precision,
    pub language: Language,
}

impl Era {
    /// Pass a date and precision.
    /// Depending on precision, day and/or month will be ignored.
    pub fn date(date: &time::Date, precision: Precision) -> (r: Self)
        ensures
            r.precision == precision,
            r.language == Language::English,
            1 <= r.month <= 12,
            1 <= r.day <= 31,
    {
        let year = date_year(date);
        let month = date_month(date);
        let day = date_day(date);
        Self::new(year, month, day, precision)
    }

    /// Pass a year, month, and day.
    pub fn day(year: i32, month: u8, day: u8) -> (r: Self)
        ensures
            r == Self::new_spec(year, month, day, Precision::Day),
    {
        Self::new(year, month, day, Precision::Day)
    }

    /// Pass a year and month.
    pub fn month(year: i32, month: u8) -> (r: Self)
        ensures
            r == Self::new_spec(year, month, 0, Precision::Month),
    {
        Self::new(year, month, 0, Precision::Month)
    }

    /// Pass a year.
    pub fn year(year: i32) -> (r: Self)
        ensures
            r == Self::new_spec(year, 0, 0, Precision::Year),
    {
        Self::new(year, 0, 0, Precision::Year)
    }

    /// Pass a year to set the date to the decade.
    pub fn decade(year: i32) -> (r: Self)
        ensures
            r == Self::new_spec(year, 0, 0, Precision::Decade),
    {
        Self::new(year, 0, 0, Precision::Decade)
    }

    /// Pass a year to set the date to the century.
    pub fn century(year: i32) -> (r: Self)
        ensures
            r == Self::new_spec(year, 0, 0, Precision::Century),
    {
        Self::new(year, 0, 0, Precision::Century)
    }

    /// Pass a year to set the date to the millennium.
    pub fn millennium(year: i32) -> (r: Self)
        ensures
            r == Self::new_spec(year, 0, 0, Precision::Millennium),
    {
        Self::new(year, 0, 0, Precision::Millennium)
    }

    /// A copy of this renderer with the language replaced; the
    /// receiver itself is unchanged value data.
    pub fn language(self, language: Language) -> (r: Self)
        ensures
            r.year == self.year,
            r.month == self.month,
            r.day == self.day,
            r.precision == self.precision,
            r.language == language,
    {
        Era {
            year: self.year,
            month: self.month,
            day: self.day,
            precision: self.precision,
            language,
        }
    }

    /// The renderer the field constructors build: the given fields,
    /// with English as the default language.
    pub open spec fn new_spec(year: i32, month: u8, day: u8, precision: Precision) -> Self {
        Era { year, month, day, precision, language: Language::English }
    }

    /// Pass year, month, day, and precision.
    /// Depending on precision, day and/or month will be ignored.
    pub fn new(year: i32, month: u8, day: u8, precision: Precision) -> (r: Self)
        ensures
            r == Self::new_spec(year, month, day, precision),
    {
        Era { year, month, day, precision, language: Language::English }
    }

    /// The era suffix this renderer's year and language select.
    pub fn era(&self) -> (r: &str)
        ensures
            r@ == era_seq(self.language, self.year as int),
    {
        self.language.era(self.year)
    }

    /// The year rendered at decade precision.
    pub fn year_to_decade(&self) -> (r: String)
        ensures
            r@ == decade_seq(self.year as int, self.language),
    {
        decade_string(self.year, self.language)
    }

    /// The year rendered at century precision.
    pub fn year_to_century(&self) -> (r: String)
        ensures
            r@ == century_seq(self.year as int, self.language),
    {
        century_string(self.year, self.language)
    }

    /// The year rendered at millennium precision.
    pub fn year_to_millennium(&self) -> (r: String)
        ensures
            r@ == millennium_seq(self.year as int, self.language),
    {
        millennium_string(self.year, self.language)
    }

    /// The display string of this renderer, by the rule of
    /// [`render_spec`].
    pub fn as_string(&self) -> (r: String)
        ensures
            r@ == render_spec(
                self.year as int,
                self.month,
                self.day,
                self.precision,
                self.language,
            ),
    {
        render_value(self.year, self.month, self.day, self.precision, self.language)
    }
}

} // verus!
