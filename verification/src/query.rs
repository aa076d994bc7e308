//! Citation-key derivation and the heading-derived query report.
//!
//! A key is the lowercased, ASCII-only form of a title, split on
//! whitespace, cut to the first four tokens and joined with `-`; a title
//! that yields no token at all falls back to the placeholder key.

use vstd::prelude::*;
use crate::meta::value::title::ascii_fold;
use crate::meta::value::title::is_ascii_char;
use crate::meta::value::title::lemma_ascii_fold_idempotent;
use crate::meta::value::title::Title;

verus! {

/// The whitespace that separates key tokens: the ASCII characters that
/// count as whitespace after non-ASCII characters have been stripped.
pub open spec fn is_key_ws(c: char) -> bool {
    (c as u32) == 32 || (9 <= (c as u32) && (c as u32) <= 13)
}

/// An ASCII letter taken to lower case; anything else kept as it is.
pub open spec fn lower_char(c: char) -> char {
    if 65 <= (c as u32) && (c as u32) <= 90 {
        (((c as u32) + 32) as u8) as char
    } else {
        c
    }
}

/// The key's raw material: non-ASCII characters stripped, the rest
/// lowercased.
pub open spec fn strip_lower(s: Seq<char>) -> Seq<char>
    decreases s.len(),
{
    if s.len() == 0 {
        Seq::empty()
    } else {
        let pre = strip_lower(s.drop_last());
        let c = s.last();
        if is_ascii_char(c) {
            pre.push(lower_char(c))
        } else {
            pre
        }
    }
}

/// The whitespace-delimited tokens of `s`, in order.
pub open spec fn tokens_of(s: Seq<char>) -> Seq<Seq<char>>
    decreases s.len(),
{
    if s.len() == 0 {
        Seq::empty()
    } else {
        let pre = tokens_of(s.drop_last());
        let c = s.last();
        if is_key_ws(c) {
            pre
        } else if s.len() >= 2 && !is_key_ws(s[s.len() - 2]) {
            pre.update(pre.len() - 1, pre.last().push(c))
        } else {
            pre.push(seq![c])
        }
    }
}

/// The first `k` tokens, or all of them when there are fewer.
pub open spec fn take_tokens(ts: Seq<Seq<char>>, k: int) -> Seq<Seq<char>> {
    if ts.len() <= k {
        ts
    } else {
        ts.take(k)
    }
}

/// Tokens joined with a single `-`.
pub open spec fn join_dash(ts: Seq<Seq<char>>) -> Seq<char>
    decreases ts.len(),
{
    if ts.len() == 0 {
        Seq::empty()
    } else if ts.len() == 1 {
        ts[0]
    } else {
        join_dash(ts.drop_last()) + seq!['-'] + ts.last()
    }
}

/// The citation key derived from a title's text: the first four tokens
/// of the stripped, lowercased form, joined with `-`; the placeholder
/// key when no token is left.
pub open spec fn key_of(s: Seq<char>) -> Seq<char> {
    if tokens_of(strip_lower(s)).len() == 0 {
        "placeholder"@
    } else {
        join_dash(take_tokens(tokens_of(strip_lower(s)), 4))
    }
}

/// The key of a possibly absent title: absent titles fall back to the
/// placeholder key.
pub open spec fn spec_derived_key(t: Option<Seq<char>>) -> Seq<char> {
    match t {
        Some(s) => key_of(s),
        None => "placeholder"@,
    }
}

/// A text that ends in a non-whitespace character has a last token.
proof fn lemma_tokens_nonempty(s: Seq<char>)
    requires
        s.len() > 0,
        !is_key_ws(s.last()),
    ensures
        tokens_of(s).len() > 0,
    decreases s.len(),
{
    if s.len() >= 2 && !is_key_ws(s[s.len() - 2]) {
        lemma_tokens_nonempty(s.drop_last());
    }
}

/// Extending the last token extends the join by that character.
proof fn lemma_join_extend(ts: Seq<Seq<char>>, c: char)
    requires
        ts.len() > 0,
    ensures
        join_dash(ts.update(ts.len() - 1, ts.last().push(c))) == join_dash(ts).push(c),
{
    let up = ts.update(ts.len() - 1, ts.last().push(c));
    if ts.len() == 1 {
        assert(join_dash(up) =~= join_dash(ts).push(c));
    } else {
        assert(up.drop_last() =~= ts.drop_last());
        assert(up.last() == ts.last().push(c));
        assert(join_dash(up) =~= join_dash(ts).push(c));
    }
}

/// Appending a fresh token appends a dash and that token to the join.
proof fn lemma_join_push(ts: Seq<Seq<char>>, t: Seq<char>)
    ensures
        ts.len() == 0 ==> join_dash(ts.push(t)) == t,
        ts.len() > 0 ==> join_dash(ts.push(t)) == join_dash(ts) + seq!['-'] + t,
{
    assert(ts.push(t).drop_last() =~= ts);
}

/// Append one character to a `String`.
/// Relies on `String::push`: it appends exactly that character.
#[verifier::external_body]
fn push_char(s: &mut String, c: char)
    ensures
        final(s)@ == old(s)@.push(c),
{
    s.push(c);
}

/// Derive the citation key of a title's text: lowercase it, strip what
/// is not ASCII, split on whitespace, keep the first four tokens and
/// join them with `-`; when nothing remains, the placeholder key.
#[verifier::rlimit(100)]
pub fn calculate_key(title: &str) -> (r: String)
    ensures
        r@ == key_of(title@),
{
    let n = title.unicode_len();
    let mut key = String::new();
    let mut tcount: usize = 0;
    let mut in_token: bool = false;
    let mut done: bool = false;
    let mut i: usize = 0;
    proof {
        assert(title@.take(0) =~= Seq::<char>::empty());
    }
    while i < n
        invariant
            i <= n,
            n == title@.len(),
            key@ == join_dash(take_tokens(tokens_of(strip_lower(title@.take(i as int))), 4)),
            done == (tokens_of(strip_lower(title@.take(i as int))).len() >= 5),
            !done ==> tcount == tokens_of(strip_lower(title@.take(i as int))).len(),
            !done ==> in_token == {
                let p = strip_lower(title@.take(i as int));
                p.len() > 0 && !is_key_ws(p.last())
            },
            tcount <= 4,
        decreases n - i,
    {
        let ghost p = strip_lower(title@.take(i as int));
        let ghost toks = tokens_of(p);
        let c = title.get_char(i);
        let u = c as u32;
        proof {
            assert(title@.take(i + 1) =~= title@.take(i as int).push(title@[i as int]));
            assert(title@.take(i + 1).drop_last() =~= title@.take(i as int));
        }
        let ghost p1 = strip_lower(title@.take(i + 1));
        if u < 128 {
            let is_ws = u == 32 || (9 <= u && u <= 13);
            proof {
                assert(p1 =~= p.push(lower_char(c)));
                assert(p1.drop_last() =~= p);
                assert(is_key_ws(lower_char(c)) == is_key_ws(c));
                assert(is_ws == is_key_ws(c));
            }
            if is_ws {
                proof {
                    assert(tokens_of(p1) =~= toks);
                }
                if !done {
                    in_token = false;
                }
            } else {
                let lc: char = if 65 <= u && u <= 90 {
                    ((u + 32) as u8) as char
                } else {
                    c
                };
                assert(lc == lower_char(c));
                proof {
                    if p.len() > 0 && !is_key_ws(p.last()) {
                        // the new character extends the last token
                        lemma_tokens_nonempty(p);
                        assert(tokens_of(p1) =~= toks.update(
                            toks.len() - 1,
                            toks.last().push(lower_char(c)),
                        ));
                    } else {
                        // the new character starts a token
                        assert(tokens_of(p1) =~= toks.push(seq![lower_char(c)]));
                    }
                }
                if done {
                    proof {
                        // at five or more tokens the first four are settled
                        assert(take_tokens(tokens_of(p1), 4) =~= take_tokens(toks, 4));
                    }
                } else {
                    if in_token {
                        proof {
                            lemma_tokens_nonempty(p);
                            lemma_join_extend(toks, lower_char(c));
                            assert(take_tokens(toks, 4) =~= toks);
                            assert(take_tokens(tokens_of(p1), 4) =~= tokens_of(p1));
                        }
                        push_char(&mut key, lc);
                    } else if tcount == 4 {
                        done = true;
                        proof {
                            assert(take_tokens(tokens_of(p1), 4) =~= take_tokens(toks, 4));
                        }
                    } else {
                        proof {
                            lemma_join_push(toks, seq![lower_char(c)]);
                            assert(take_tokens(toks, 4) =~= toks);
                            assert(take_tokens(tokens_of(p1), 4) =~= tokens_of(p1));
                        }
                        if tcount > 0 {
                            push_char(&mut key, '-');
                        }
                        push_char(&mut key, lc);
                        tcount = tcount + 1;
                        in_token = true;
                        proof {
                            assert(key@ =~= join_dash(take_tokens(tokens_of(p1), 4)));
                        }
                    }
                }
            }
        } else {
            proof {
                assert(p1 =~= p);
            }
        }
        i = i + 1;
    }
    proof {
        assert(title@.take(n as int) =~= title@);
    }
    if !done && tcount == 0 {
        "placeholder".to_owned()
    } else {
        key
    }
}

/// Re-normalizing a title never changes its key: the ASCII fold is
/// idempotent, so the key of a folded text equals the key of the fold
/// applied twice.
pub proof fn lemma_key_normalize_idempotent(raw: Seq<char>)
    ensures
        key_of(ascii_fold(raw)) == key_of(ascii_fold(ascii_fold(raw))),
{
    lemma_ascii_fold_idempotent(raw);
}

/// A title with at least four tokens keys on exactly its first four,
/// joined with `-`; one with fewer keys on all of them.
pub proof fn lemma_key_uses_first_four_tokens(s: Seq<char>)
    ensures
        tokens_of(strip_lower(s)).len() >= 4 ==> key_of(s) == join_dash(
            tokens_of(strip_lower(s)).take(4),
        ),
        0 < tokens_of(strip_lower(s)).len() < 4 ==> key_of(s) == join_dash(
            tokens_of(strip_lower(s)),
        ),
{
    let ts = tokens_of(strip_lower(s));
    if ts.len() >= 4 {
        if ts.len() == 4 {
            assert(ts.take(4) =~= ts);
        }
    }
}

/// An empty or absent title keys on the placeholder token.
pub proof fn lemma_key_placeholder()
    ensures
        key_of(Seq::<char>::empty()) == "placeholder"@,
        spec_derived_key(None) == "placeholder"@,
{
}

} // verus!

verus! {

use crate::doc::Document;

/// What the heading heuristics read from a document.
#[derive(Debug)]
pub struct HtmlQueryReport {
    pub title: Option<Title>,
}

impl HtmlQueryReport {
    /// The heading-derived report: the first heading's text, normalized
    /// into a title; absent when the document has no heading.
    pub fn from(doc: &Document) -> (r: HtmlQueryReport)
        ensures
            r.title.deep_view() == match doc.heading {
                Some(h) => Some(ascii_fold(h@)),
                None => None,
            },
            r.title matches Some(t) ==> t.wf(),
    {
        match &doc.heading {
            Some(h) => HtmlQueryReport { title: Some(Title::new(h.as_str())) },
            None => HtmlQueryReport { title: None },
        }
    }
}

} // verus!
