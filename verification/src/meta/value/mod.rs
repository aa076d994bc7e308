//! The value decoding layer: per-type decode rules with a pass/fail
//! contract, and the typed metadata value with fallible conversions.

use vstd::prelude::*;

pub mod date;
pub mod issn;
pub mod name;
pub mod title;

verus! {

use crate::meta::value::date::DateIso8601;
use crate::meta::value::issn::Issn;
use crate::meta::value::name::Name;
use crate::meta::value::title::Title;

/// What the URL parser accepts, and the normalized serialization it
/// settles on: a function of the input characters alone.
pub uninterp spec fn url_normalized(s: Seq<char>) -> Option<Seq<char>>;

/// Relies on `url::Url::parse` and the `From<Url> for String`
/// serialization: the outcome and the normalized text depend on the
/// input characters alone.
#[verifier::external_body]
pub(crate) fn parse_url(s: &str) -> (r: Option<String>)
    ensures
        r.deep_view() == url_normalized(s@),
{
    match url::Url::parse(s) {
        Ok(u) => Some(String::from(u)),
        Err(_) => None,
    }
}

/// Which strings the MIME parser accepts: a function of the input
/// characters alone.
pub uninterp spec fn mime_ok(s: Seq<char>) -> bool;

/// Relies on `mime::Mime`'s `FromStr`: acceptance depends on the input
/// characters alone.
#[verifier::external_body]
pub(crate) fn mime_check(s: &str) -> (r: bool)
    ensures
        r == mime_ok(s@),
{
    s.parse::<mime::Mime>().is_ok()
}

/// Which strings parse as a language identifier: a function of the input
/// characters alone.
pub uninterp spec fn langid_ok(s: Seq<char>) -> bool;

/// Relies on `unic_langid::LanguageIdentifier`'s `FromStr`: acceptance
/// depends on the input characters alone.
#[verifier::external_body]
pub(crate) fn langid_check(s: &str) -> (r: bool)
    ensures
        r == langid_ok(s@),
{
    s.parse::<unic_langid::LanguageIdentifier>().is_ok()
}

/// Which strings parse as an ISBN: a function of the input characters
/// alone.
pub uninterp spec fn isbn_ok(s: Seq<char>) -> bool;

/// Relies on `isbn2::Isbn`'s `FromStr`: acceptance depends on the input
/// characters alone.
#[verifier::external_body]
pub(crate) fn isbn_check(s: &str) -> (r: bool)
    ensures
        r == isbn_ok(s@),
{
    s.parse::<isbn2::Isbn>().is_ok()
}

/// The numeric value of a digit sequence, most significant first.
pub open spec fn digits_val(s: Seq<char>) -> int
    decreases s.len(),
{
    if s.len() == 0 {
        0
    } else {
        digits_val(s.drop_last()) * 10 + (s.last() as u32 - 48)
    }
}

/// Whether every character of `s` is a decimal digit.
pub open spec fn all_digits(s: Seq<char>) -> bool {
    forall|i: int| 0 <= i < s.len() ==> crate::meta::value::issn::is_digit_char(#[trigger] s[i])
}

/// What `u32` decimal parsing accepts: an optional leading `+`, then at
/// least one digit, with the value within range.
pub open spec fn spec_parse_u32(s: Seq<char>) -> Option<int> {
    let d = if s.len() > 0 && (s[0] as u32) == 43 {
        s.drop_first()
    } else {
        s
    };
    if d.len() > 0 && all_digits(d) && digits_val(d) <= u32::MAX {
        Some(digits_val(d))
    } else {
        None
    }
}

/// Decimal parsing of a `u32`, with overflow and malformed input rejected.
#[verifier::rlimit(30)]
pub fn parse_u32(s: &str) -> (r: Option<u32>)
    ensures
        match r {
            Some(v) => spec_parse_u32(s@) == Some(v as int),
            None => spec_parse_u32(s@) is None,
        },
{
    let n = s.unicode_len();
    let mut i: usize = 0;
    if n > 0 && (s.get_char(0) as u32) == 43 {
        i = 1;
    }
    let ghost d = if s@.len() > 0 && (s@[0] as u32) == 43 {
        s@.drop_first()
    } else {
        s@
    };
    let start = i;
    if i == n {
        assert(d.len() == 0);
        return None;
    }
    let mut acc: u64 = 0;
    while i < n
        invariant
            start <= i <= n,
            n == s@.len(),
            start == (if s@.len() > 0 && (s@[0] as u32) == 43 { 1int } else { 0int }),
            d == s@.skip(start as int),
            all_digits(d.take(i - start)),
            acc == digits_val(d.take(i - start)),
            acc <= u32::MAX,
        decreases n - i,
    {
        let c = s.get_char(i);
        let u = c as u32;
        assert(d[i - start] == s@[i as int]);
        if !(48 <= u && u <= 57) {
            assert(!crate::meta::value::issn::is_digit_char(d[i - start]));
            return None;
        }
        let digit: u64 = (u - 48) as u64;
        let next: u64 = acc * 10 + digit;
        assert(d.take(i + 1 - start).drop_last() =~= d.take(i - start));
        assert(d.take(i + 1 - start).last() == d[i - start]);
        if next > u32::MAX as u64 {
            assert(digits_val(d.take(i + 1 - start)) > u32::MAX);
            proof {
                lemma_digits_val_grows(d, i + 1 - start);
                assert(d =~= (if s@.len() > 0 && (s@[0] as u32) == 43 {
                    s@.drop_first()
                } else {
                    s@
                }));
                if all_digits(d) {
                    assert(digits_val(d) > u32::MAX);
                }
                assert(spec_parse_u32(s@) is None);
            }
            return None;
        }
        acc = next;
        i = i + 1;
    }
    assert(d.take(i - start) =~= d);
    Some(acc as u32)
}

/// A digit sequence's value is never negative.
proof fn lemma_digits_val_nonneg(s: Seq<char>)
    requires
        all_digits(s),
    ensures
        digits_val(s) >= 0,
    decreases s.len(),
{
    if s.len() > 0 {
        assert(all_digits(s.drop_last()));
        lemma_digits_val_nonneg(s.drop_last());
    }
}

/// A digit sequence's value only grows as more digits follow.
proof fn lemma_digits_val_grows(s: Seq<char>, k: int)
    requires
        0 <= k <= s.len(),
    ensures
        all_digits(s) ==> digits_val(s) >= digits_val(s.take(k)),
    decreases s.len() - k,
{
    if k < s.len() {
        lemma_digits_val_grows(s, k + 1);
        assert(s.take(k + 1).drop_last() =~= s.take(k));
        if all_digits(s) {
            assert(all_digits(s.take(k)));
            lemma_digits_val_nonneg(s.take(k));
            assert(digits_val(s.take(k + 1)) >= digits_val(s.take(k)));
        }
    } else {
        assert(s.take(k) =~= s);
    }
}

/// A decoded metadata value of one of the supported semantic types.
#[derive(Debug)]
pub enum MetadataValue {
    Url(String),
    Mime(String),
    Text(String),
    Date(DateIso8601),
    Isbn10(String),
    Isbn13(String),
    Issn(Issn),
    Language(String),
    Name(Name),
    Title(Title),
    Absent,
}

impl Default for MetadataValue {
    /// The default metadata value carries nothing.
    fn default() -> (r: Self)
        ensures
            r is Absent,
    {
        MetadataValue::Absent
    }
}

impl MetadataValue {
    /// The held URL, exactly when this value is a URL.
    pub fn into_url(self) -> (r: Option<String>)
        ensures
            match self {
                MetadataValue::Url(u) => r == Some(u),
                _ => r is None,
            },
    {
        match self {
            MetadataValue::Url(u) => Some(u),
            _ => None,
        }
    }

    /// The held MIME type, exactly when this value is a MIME type.
    pub fn into_mime(self) -> (r: Option<String>)
        ensures
            match self {
                MetadataValue::Mime(m) => r == Some(m),
                _ => r is None,
            },
    {
        match self {
            MetadataValue::Mime(m) => Some(m),
            _ => None,
        }
    }

    /// The held text, exactly when this value is plain text.
    pub fn into_text(self) -> (r: Option<String>)
        ensures
            match self {
                MetadataValue::Text(t) => r == Some(t),
                _ => r is None,
            },
    {
        match self {
            MetadataValue::Text(t) => Some(t),
            _ => None,
        }
    }

    /// The held date, exactly when this value is a date.
    pub fn into_date(self) -> (r: Option<DateIso8601>)
        ensures
            match self {
                MetadataValue::Date(d) => r == Some(d),
                _ => r is None,
            },
    {
        match self {
            MetadataValue::Date(d) => Some(d),
            _ => None,
        }
    }

    /// The held ten-digit ISBN text, exactly when this value is one.
    pub fn into_isbn10(self) -> (r: Option<String>)
        ensures
            match self {
                MetadataValue::Isbn10(i) => r == Some(i),
                _ => r is None,
            },
    {
        match self {
            MetadataValue::Isbn10(i) => Some(i),
            _ => None,
        }
    }

    /// The held thirteen-digit ISBN text, exactly when this value is one.
    pub fn into_isbn13(self) -> (r: Option<String>)
        ensures
            match self {
                MetadataValue::Isbn13(i) => r == Some(i),
                _ => r is None,
            },
    {
        match self {
            MetadataValue::Isbn13(i) => Some(i),
            _ => None,
        }
    }

    /// The held ISSN, exactly when this value is an ISSN.
    pub fn into_issn(self) -> (r: Option<Issn>)
        ensures
            match self {
                MetadataValue::Issn(i) => r matches Some(o) && o.data == i.data,
                _ => r is None,
            },
    {
        match self {
            MetadataValue::Issn(i) => Some(i),
            _ => None,
        }
    }

    /// The held language tag, exactly when this value is a language.
    pub fn into_language(self) -> (r: Option<String>)
        ensures
            match self {
                MetadataValue::Language(l) => r == Some(l),
                _ => r is None,
            },
    {
        match self {
            MetadataValue::Language(l) => Some(l),
            _ => None,
        }
    }

    /// The held person name, exactly when this value is a name.
    pub fn into_name(self) -> (r: Option<Name>)
        ensures
            match self {
                MetadataValue::Name(n) => r matches Some(o) && o@ == n@,
                _ => r is None,
            },
    {
        match self {
            MetadataValue::Name(n) => Some(n),
            _ => None,
        }
    }

    /// The held title, exactly when this value is a title.
    pub fn into_title(self) -> (r: Option<Title>)
        ensures
            match self {
                MetadataValue::Title(t) => r matches Some(o) && o@ == t@,
                _ => r is None,
            },
    {
        match self {
            MetadataValue::Title(t) => Some(t),
            _ => None,
        }
    }
}

} // verus!
