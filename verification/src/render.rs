//! Assembly of the display string for a (year, month, day) value at a
//! chosen precision and language, with the era-aware bucketing rules
//! for decades, centuries and millennia.

use vstd::prelude::*;
use vstd::string::StringExecFns;
use crate::digits::abs_int;
use crate::digits::dec_digits;
use crate::digits::decimal_string;
use crate::digits::int_digits;
use crate::digits::magnitude;
use crate::digits::pad2;
use crate::digits::padded2_string;
use crate::digits::signed_string;
use crate::language::century_fragment_seq;
use crate::language::decade_fragment_seq;
use crate::language::era_seq;
use crate::language::extension_seq;
use crate::language::millennium_fragment_seq;
use crate::language::Language;
use crate::precision::Precision;

verus! {

/// The first year of the decade bucket of a year: the magnitude
/// truncated to a multiple of ten.
pub open spec fn decade_start(year: int) -> nat {
    (abs_int(year) / 10) * 10
}

/// The one-based century a year falls in, by magnitude: years 1
/// through 100 lie in century 1.
pub open spec fn century_index(year: int) -> nat {
    (abs_int(year) + 99) / 100
}

/// The one-based millennium a year falls in, by magnitude.
pub open spec fn millennium_index(year: int) -> nat {
    (abs_int(year) + 999) / 1000
}

/// The era-free part of a decade rendering.
pub open spec fn decade_body(year: int, language: Language) -> Seq<char> {
    dec_digits(decade_start(year)) + decade_fragment_seq(language)
}

/// The era-free part of a century rendering.
pub open spec fn century_body(year: int, language: Language) -> Seq<char> {
    dec_digits(century_index(year)) + extension_seq(language, century_index(year) as int) + " "@
        + century_fragment_seq(language)
}

/// The era-free part of a millennium rendering.
pub open spec fn millennium_body(year: int, language: Language) -> Seq<char> {
    dec_digits(millennium_index(year)) + extension_seq(language, millennium_index(year) as int)
        + " "@ + millennium_fragment_seq(language)
}

/// A year rendered at decade precision; year zero has no decade and
/// renders as `"0"`.
pub open spec fn decade_seq(year: int, language: Language) -> Seq<char> {
    if year == 0 {
        "0"@
    } else {
        decade_body(year, language) + era_seq(language, year)
    }
}

/// A year rendered at century precision; year zero renders as `"0"`.
pub open spec fn century_seq(year: int, language: Language) -> Seq<char> {
    if year == 0 {
        "0"@
    } else {
        century_body(year, language) + era_seq(language, year)
    }
}

/// A year rendered at millennium precision; year zero renders as
/// `"0"`.
pub open spec fn millennium_seq(year: int, language: Language) -> Seq<char> {
    if year == 0 {
        "0"@
    } else {
        millennium_body(year, language) + era_seq(language, year)
    }
}

/// The full rendering rule: one dispatch arm per precision. Month and
/// day are zero-padded to two digits where they appear; the year is
/// never padded.
pub open spec fn render_spec(
    year: int,
    month: u8,
    day: u8,
    precision: Precision,
    language: Language,
) -> Seq<char> {
    match precision {
        Precision::Millennium => millennium_seq(year, language),
        Precision::Century => century_seq(year, language),
        Precision::Decade => decade_seq(year, language),
        Precision::Year => int_digits(year),
        Precision::Month => int_digits(year) + "-"@ + pad2(month as nat),
        Precision::Day => int_digits(year) + "-"@ + pad2(month as nat) + "-"@ + pad2(day as nat),
    }
}

/// Whether a precision renders era-aware buckets rather than the
/// year, month and day fields.
pub open spec fn era_precision(p: Precision) -> bool {
    p is Decade || p is Century || p is Millennium
}

/// The era-free part of an era-aware rendering.
pub open spec fn render_body(year: int, precision: Precision, language: Language) -> Seq<char> {
    match precision {
        Precision::Millennium => millennium_body(year, language),
        Precision::Century => century_body(year, language),
        Precision::Decade => decade_body(year, language),
        _ => Seq::empty(),
    }
}

/// A year rendered at decade precision.
pub fn decade_string(year: i32, language: Language) -> (r: String)
    ensures
        r@ == decade_seq(year as int, language),
{
    if year == 0 {
        return String::from_str("0");
    }
    let m = magnitude(year);
    let bucket = (m / 10) * 10;
    let r = decimal_string(bucket).concat(language.decade()).concat(language.era(year));
    proof {
        assert(r@ =~= decade_seq(year as int, language));
    }
    r
}

/// A year rendered at century precision.
pub fn century_string(year: i32, language: Language) -> (r: String)
    ensures
        r@ == century_seq(year as int, language),
{
    if year == 0 {
        return String::from_str("0");
    }
    let m = magnitude(year);
    let c = (m + 99) / 100;
    let ext = language.extension(c as i32);
    let r = decimal_string(c).concat(ext).concat(" ").concat(language.century()).concat(
        language.era(year),
    );
    proof {
        assert(r@ =~= century_seq(year as int, language));
    }
    r
}

/// A year rendered at millennium precision.
pub fn millennium_string(year: i32, language: Language) -> (r: String)
    ensures
        r@ == millennium_seq(year as int, language),
{
    if year == 0 {
        return String::from_str("0");
    }
    let m = magnitude(year);
    let c = (m + 999) / 1000;
    let ext = language.extension(c as i32);
    let r = decimal_string(c).concat(ext).concat(" ").concat(language.millennium()).concat(
        language.era(year),
    );
    proof {
        assert(r@ =~= millennium_seq(year as int, language));
    }
    r
}

/// The display string for the given fields, by the rule of
/// [`render_spec`].
pub fn render_value(
    year: i32,
    month: u8,
    day: u8,
    precision: Precision,
    language: Language,
) -> (r: String)
    ensures
        r@ == render_spec(year as int, month, day, precision, language),
{
    match precision {
        Precision::Millennium => millennium_string(year, language),
        Precision::Century => century_string(year, language),
        Precision::Decade => decade_string(year, language),
        Precision::Year => signed_string(year),
        Precision::Month => {
            let r = signed_string(year).concat("-").concat(padded2_string(month).as_str());
            proof {
                assert(r@ =~= render_spec(year as int, month, day, precision, language));
            }
            r
        },
        Precision::Day => {
            let r = signed_string(year).concat("-").concat(padded2_string(month).as_str()).concat(
                "-",
            ).concat(padded2_string(day).as_str());
            proof {
                assert(r@ =~= render_spec(year as int, month, day, precision, language));
            }
            r
        },
    }
}

/// Year zero is the epoch origin: at every era-aware precision it
/// renders as `"0"`, with no fragment and no era suffix, in every
/// language.
pub proof fn lemma_year_zero(month: u8, day: u8, precision: Precision, language: Language)
    requires
        era_precision(precision),
    ensures
        render_spec(0, month, day, precision, language) == "0"@,
{
}

/// In an era-aware rendering of a nonzero year, the era suffix is
/// appended exactly when the year is negative: a negative year ends
/// in a non-empty marker, a positive year renders as the era-free
/// body alone.
pub proof fn lemma_era_suffix(
    year: int,
    month: u8,
    day: u8,
    precision: Precision,
    language: Language,
)
    requires
        era_precision(precision),
        year != 0,
    ensures
        render_spec(year, month, day, precision, language) == render_body(year, precision, language)
            + era_seq(language, year),
        year < 0 ==> era_seq(language, year).len() > 0,
        year > 0 ==> render_spec(year, month, day, precision, language) == render_body(
            year,
            precision,
            language,
        ),
{
    reveal_strlit(" BCE");
    reveal_strlit(" v.Chr.");
    reveal_strlit("");
    if year > 0 {
        assert(render_spec(year, month, day, precision, language) =~= render_body(
            year,
            precision,
            language,
        ));
    }
}

/// The decade bucket is symmetric around magnitude: a year and its
/// negation share the era-free decade rendering.
pub proof fn lemma_decade_symmetric(year: int, language: Language)
    ensures
        decade_body(year, language) == decade_body(-year, language),
{
}

/// Two nonzero years of one sign whose magnitudes lie in the same
/// decade render identically at decade precision.
pub proof fn lemma_decade_bucket(y1: int, y2: int, language: Language)
    requires
        y1 != 0,
        y2 != 0,
        (y1 < 0) == (y2 < 0),
        abs_int(y1) / 10 == abs_int(y2) / 10,
    ensures
        decade_seq(y1, language) == decade_seq(y2, language),
{
}

} // verus!
