//! Vocabularies for rendering: era suffixes, ordinal extensions, and
//! the noun fragments for decade, century and millennium, per
//! supported language, with a string-code round trip that falls back
//! to English on anything unrecognized.

use vstd::prelude::*;
use vstd::string::StrSliceExecFns;
use crate::digits::abs_int;
use crate::digits::magnitude;

verus! {

#[derive(Debug, Clone, Copy, PartialEq, Eq, Structural)]
pub enum Language {
    German,
    English,
}

/// The ordinal extension for a number with the given magnitude: a
/// trailing period in German; in English a suffix chosen by the last
/// digit alone (deliberately without the 11/12/13 exception).
pub open spec fn extension_seq(language: Language, n: int) -> Seq<char> {
    match language {
        Language::German => "."@,
        Language::English => {
            let d = abs_int(n) % 10;
            if d == 1 {
                "st"@
            } else if d == 2 {
                "nd"@
            } else if d == 3 {
                "rd"@
            } else {
                "th"@
            }
        },
    }
}

/// The era suffix: empty for year zero and positive years, the
/// language's BCE marker for negative years.
pub open spec fn era_seq(language: Language, year: int) -> Seq<char> {
    if year < 0 {
        match language {
            Language::German => " v.Chr."@,
            Language::English => " BCE"@,
        }
    } else {
        ""@
    }
}

/// The fragment appended directly after the decade-start digits.
pub open spec fn decade_fragment_seq(language: Language) -> Seq<char> {
    match language {
        Language::German => "er"@,
        Language::English => "s"@,
    }
}

/// The noun used at century precision.
pub open spec fn century_fragment_seq(language: Language) -> Seq<char> {
    match language {
        Language::German => "Jahrhundert"@,
        Language::English => "century"@,
    }
}

/// The noun used at millennium precision.
pub open spec fn millennium_fragment_seq(language: Language) -> Seq<char> {
    match language {
        Language::German => "Jahrtausend"@,
        Language::English => "millennium"@,
    }
}

/// The two-letter code of a language.
pub open spec fn code_seq(language: Language) -> Seq<char> {
    match language {
        Language::German => "de"@,
        Language::English => "en"@,
    }
}

/// Unicode whitespace, the set that string trimming removes.
pub open spec fn is_space_char(c: char) -> bool {
    ||| c == '\u{9}'
    ||| c == '\u{a}'
    ||| c == '\u{b}'
    ||| c == '\u{c}'
    ||| c == '\u{d}'
    ||| c == ' '
    ||| c == '\u{85}'
    ||| c == '\u{a0}'
    ||| c == '\u{1680}'
    ||| ('\u{2000}' <= c && c <= '\u{200a}')
    ||| c == '\u{2028}'
    ||| c == '\u{2029}'
    ||| c == '\u{202f}'
    ||| c == '\u{205f}'
    ||| c == '\u{3000}'
}

/// `s` with leading whitespace removed.
pub open spec fn trim_front(s: Seq<char>) -> Seq<char>
    decreases s.len(),
{
    if s.len() > 0 && is_space_char(s[0]) {
        trim_front(s.drop_first())
    } else {
        s
    }
}

/// `s` with trailing whitespace removed.
pub open spec fn trim_back(s: Seq<char>) -> Seq<char>
    decreases s.len(),
{
    if s.len() > 0 && is_space_char(s[s.len() - 1]) {
        trim_back(s.drop_last())
    } else {
        s
    }
}

/// `s` with whitespace removed on both ends.
pub open spec fn trimmed(s: Seq<char>) -> Seq<char> {
    trim_back(trim_front(s))
}

/// Whether a code string selects German: exactly `"de"` after
/// trimming, compared case-insensitively.
pub open spec fn is_german_code(s: Seq<char>) -> bool {
    let t = trimmed(s);
    t.len() == 2 && (t[0] == 'd' || t[0] == 'D') && (t[1] == 'e' || t[1] == 'E')
}

/// The language a code string resolves to; everything that is not a
/// German code falls back to English.
pub open spec fn from_code_spec(s: Seq<char>) -> Language {
    if is_german_code(s) {
        Language::German
    } else {
        Language::English
    }
}

impl Language {
    /// The ordinal extension for a (century or millennium) number.
    pub fn extension(&self, year: i32) -> (r: &str)
        ensures
            r@ == extension_seq(*self, year as int),
    {
        match self {
            Language::German => ".",
            Language::English => {
                let d = magnitude(year) % 10;
                if d == 1 {
                    "st"
                } else if d == 2 {
                    "nd"
                } else if d == 3 {
                    "rd"
                } else {
                    "th"
                }
            },
        }
    }

    /// The era suffix for a year.
    pub fn era(&self, year: i32) -> (r: &str)
        ensures
            r@ == era_seq(*self, year as int),
    {
        if year < 0 {
            match self {
                Language::German => " v.Chr.",
                Language::English => " BCE",
            }
        } else {
            ""
        }
    }

    /// The fragment appended after the decade digits.
    pub fn decade(&self) -> (r: &str)
        ensures
            r@ == decade_fragment_seq(*self),
    {
        match self {
            Language::German => "er",
            Language::English => "s",
        }
    }

    /// The noun used at century precision.
    pub fn century(&self) -> (r: &str)
        ensures
            r@ == century_fragment_seq(*self),
    {
        match self {
            Language::German => "Jahrhundert",
            Language::English => "century",
        }
    }

    /// The noun used at millennium precision.
    pub fn millennium(&self) -> (r: &str)
        ensures
            r@ == millennium_fragment_seq(*self),
    {
        match self {
            Language::German => "Jahrtausend",
            Language::English => "millennium",
        }
    }

    /// The two-letter code of this language.
    pub fn to_code(&self) -> (r: &str)
        ensures
            r@ == code_seq(*self),
    {
        match self {
            Language::German => "de",
            Language::English => "en",
        }
    }

    /// Resolves a code string: `"de"`, trimmed and case-insensitive,
    /// selects German; every other string falls back to English.
    pub fn from_code(code: &str) -> (r: Language)
        ensures
            r == from_code_spec(code@),
    {
        let n = code.unicode_len();
        let mut i: usize = 0;
        while i < n && is_space(code.get_char(i))
            invariant
                i <= n,
                n == code@.len(),
                forall|k: int| 0 <= k < i ==> is_space_char(code@[k]),
            decreases n - i,
        {
            i = i + 1;
        }
        let mut j: usize = n;
        while j > i && is_space(code.get_char(j - 1))
            invariant
                i <= j <= n,
                n == code@.len(),
                i == n || !is_space_char(code@[i as int]),
                forall|k: int| 0 <= k < i ==> is_space_char(code@[k]),
                forall|k: int| j <= k < n ==> is_space_char(code@[k]),
            decreases j,
        {
            j = j - 1;
        }
        proof {
            lemma_trim_front_space_prefix(code@, i as int);
            let t = code@.skip(i as int);
            assert forall|k: int| j - i <= k < t.len() implies is_space_char(t[k]) by {
                assert(t[k] == code@[k + i]);
            }
            if j > i {
                assert(t[j - i - 1] == code@[j - 1]);
            }
            lemma_trim_back_space_suffix(t, j as int - i as int);
            assert(t.take(j as int - i as int) =~= code@.subrange(i as int, j as int));
            assert(trimmed(code@) == code@.subrange(i as int, j as int));
        }
        if j - i == 2 {
            let c0 = code.get_char(i);
            let c1 = code.get_char(i + 1);
            if (c0 == 'd' || c0 == 'D') && (c1 == 'e' || c1 == 'E') {
                Language::German
            } else {
                Language::English
            }
        } else {
            Language::English
        }
    }
}

/// Whether a character is whitespace in the sense of [`is_space_char`].
fn is_space(c: char) -> (r: bool)
    ensures
        r == is_space_char(c),
{
    c == '\u{9}' || c == '\u{a}' || c == '\u{b}' || c == '\u{c}' || c == '\u{d}' || c == ' '
        || c == '\u{85}' || c == '\u{a0}' || c == '\u{1680}' || ('\u{2000}' <= c && c <= '\u{200a}')
        || c == '\u{2028}' || c == '\u{2029}' || c == '\u{202f}' || c == '\u{205f}' || c
        == '\u{3000}'
}

/// Trimming the front ignores a prefix known to be all whitespace.
proof fn lemma_trim_front_space_prefix(s: Seq<char>, i: int)
    requires
        0 <= i <= s.len(),
        forall|k: int| 0 <= k < i ==> is_space_char(s[k]),
        i == s.len() || !is_space_char(s[i]),
    ensures
        trim_front(s) == s.skip(i),
    decreases i,
{
    if i == 0 {
        assert(s.skip(0) =~= s);
    } else {
        assert(s.drop_first() =~= s.skip(1));
        lemma_trim_front_space_prefix(s.skip(1), i - 1);
        assert(s.skip(1).skip(i - 1) =~= s.skip(i));
    }
}

/// Trimming the back ignores a suffix known to be all whitespace.
proof fn lemma_trim_back_space_suffix(s: Seq<char>, j: int)
    requires
        0 <= j <= s.len(),
        forall|k: int| j <= k < s.len() ==> is_space_char(s[k]),
        j == 0 || !is_space_char(s[j - 1]),
    ensures
        trim_back(s) == s.take(j),
    decreases s.len() - j,
{
    if j == s.len() {
        assert(s.take(j) =~= s);
        if s.len() > 0 {
            assert(!is_space_char(s[s.len() - 1]));
        }
    } else {
        assert(is_space_char(s[s.len() - 1]));
        assert(s.drop_last() =~= s.take(s.len() - 1));
        lemma_trim_back_space_suffix(s.take(s.len() - 1), j);
        assert(s.take(s.len() - 1).take(j) =~= s.take(j));
    }
}

} // verus!
