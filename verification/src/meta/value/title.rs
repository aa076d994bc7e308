//! Titles, normalized to ASCII at decode time. The normalization is
//! load-bearing for citation-key derivation.

use vstd::prelude::*;

verus! {

/// Whether a character is plain ASCII.
pub open spec fn is_ascii_char(c: char) -> bool {
    (c as u32) < 128
}

/// Whether every character of `s` is plain ASCII.
pub open spec fn is_ascii_seq(s: Seq<char>) -> bool {
    forall|i: int| 0 <= i < s.len() ==> is_ascii_char(#[trigger] s[i])
}

/// `s` with every non-ASCII character removed, order kept.
pub open spec fn ascii_clamp(s: Seq<char>) -> Seq<char> {
    s.filter(|c: char| is_ascii_char(c))
}

/// What the transliteration library returns on input that is not yet
/// pure ASCII; pinned only through `ascii_fold`.
pub uninterp spec fn ascii_fold_raw(s: Seq<char>) -> Seq<char>;

/// The ASCII transliteration of `s`: ASCII input is left unchanged, and
/// the result never holds a character outside ASCII.
pub open spec fn ascii_fold(s: Seq<char>) -> Seq<char> {
    if is_ascii_seq(s) {
        s
    } else {
        ascii_clamp(ascii_fold_raw(s))
    }
}

/// The folded form of a string is always pure ASCII.
pub proof fn lemma_ascii_fold_is_ascii(s: Seq<char>)
    ensures
        is_ascii_seq(ascii_fold(s)),
{
    if !is_ascii_seq(s) {
        let pred = |c: char| is_ascii_char(c);
        let raw = ascii_fold_raw(s);
        assert forall|i: int| 0 <= i < raw.filter(pred).len() implies is_ascii_char(
            #[trigger] raw.filter(pred)[i],
        ) by {
            raw.lemma_filter_pred(pred, i);
        }
    }
}

/// Normalizing twice never changes the result: the fold maps ASCII to
/// itself, and its output is always ASCII.
pub proof fn lemma_ascii_fold_idempotent(s: Seq<char>)
    ensures
        ascii_fold(ascii_fold(s)) == ascii_fold(s),
{
    lemma_ascii_fold_is_ascii(s);
}

/// Relies on `deunicode::deunicode`: the result is a pure-ASCII
/// transliteration of the input, every ASCII character mapping to itself,
/// and depends on the input characters alone.
#[verifier::external_body]
fn fold_to_ascii(s: &str) -> (r: String)
    ensures
        r@ == ascii_fold(s@),
        !is_ascii_seq(s@) ==> r@ == ascii_clamp(ascii_fold_raw(s@)),
{
    deunicode::deunicode(s)
}

/// A document or object title, held in its ASCII-transliterated form.
#[derive(Debug)]
pub struct Title {
    pub canonical: String,
}

impl View for Title {
    type V = Seq<char>;

    open spec fn view(&self) -> Seq<char> {
        self.canonical@
    }
}

impl DeepView for Title {
    type V = Seq<char>;

    open spec fn deep_view(&self) -> Seq<char> {
        self.canonical@
    }
}

impl Title {
    /// Whether the stored form is normalized, i.e. pure ASCII.
    pub open spec fn wf(self) -> bool {
        is_ascii_seq(self.canonical@)
    }

    /// Decode a raw title: transliterate it to ASCII.
    pub fn new(canonical: &str) -> (r: Title)
        ensures
            r@ == ascii_fold(canonical@),
            r.wf(),
    {
        let folded = fold_to_ascii(canonical);
        proof {
            lemma_ascii_fold_is_ascii(canonical@);
        }
        Title { canonical: folded }
    }
}

} // verus!
