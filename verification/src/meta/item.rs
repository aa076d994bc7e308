//! What every metadata item declares — its selector, where it reads a
//! value from, and whether it is scalar or list-targeted — together with
//! the scan-step helpers shared by every registry.

use vstd::prelude::*;
use crate::elem::attr_of;
use crate::elem::Elem;
use crate::error::Errors;
use crate::error::MetaError;
use crate::meta::value::date::rfc3339_date;
use crate::meta::value::date::DateIso8601;
use crate::meta::value::isbn_check;
use crate::meta::value::isbn_ok;
use crate::meta::value::langid_check;
use crate::meta::value::langid_ok;
use crate::meta::value::mime_check;
use crate::meta::value::mime_ok;
use crate::meta::value::name::person_of;
use crate::meta::value::name::Name;
use crate::meta::value::name::NameV;
use crate::meta::value::parse_u32;
use crate::meta::value::parse_url;
use crate::meta::value::spec_parse_u32;
use crate::meta::value::title::ascii_fold;
use crate::meta::value::title::Title;
use crate::meta::value::url_normalized;

verus! {

/// Where an item reads its value: a named attribute, or nowhere at all
/// for presence-only discriminator items.
#[derive(Debug)]
pub enum MetadataItemTarget {
    Attr(String),
    Presence,
}

impl MetadataItemTarget {
    /// The raw text this target reads from an element: the named
    /// attribute's value, `ExtractionContentNotFound` when the element
    /// lacks it, and `NoExtractionTarget` for a presence-only target,
    /// which never carries a value.
    pub fn extract(&self, el: &Elem) -> (r: crate::error::MetaResult<String>)
        ensures
            match *self {
                MetadataItemTarget::Attr(a) => match attr_of(*el, a@) {
                    Some(v) => r matches Ok(s) && s@ == v,
                    None => r matches Err(e) && e == MetaError::ExtractionContentNotFound,
                },
                MetadataItemTarget::Presence => r matches Err(e) && e
                    == MetaError::NoExtractionTarget,
            },
    {
        match self {
            MetadataItemTarget::Attr(a) => match el.get_attr(a.as_str()) {
                Some(v) => Ok(v.clone()),
                None => Err(MetaError::ExtractionContentNotFound),
            },
            MetadataItemTarget::Presence => Err(MetaError::NoExtractionTarget),
        }
    }
}

/// Whether `e` is a `meta` element carrying attribute `key` with exactly
/// `val`.
pub open spec fn prop_match(e: Elem, key: Seq<char>, val: Seq<char>) -> bool {
    e.name@ == "meta"@ && attr_of(e, key) == Some(val)
}

/// The selector `meta[key="val"]`.
pub open spec fn sel1(key: Seq<char>, val: Seq<char>) -> spec_fn(Elem) -> bool {
    |e: Elem| prop_match(e, key, val)
}

/// The selector `meta[k1="v1"], meta[k2="v2"]`.
pub open spec fn sel2(
    k1: Seq<char>,
    v1: Seq<char>,
    k2: Seq<char>,
    v2: Seq<char>,
) -> spec_fn(Elem) -> bool {
    |e: Elem| prop_match(e, k1, v1) || prop_match(e, k2, v2)
}

/// The selector `meta[k1="v1"][k2="v2"]`.
pub open spec fn selc(
    k1: Seq<char>,
    v1: Seq<char>,
    k2: Seq<char>,
    v2: Seq<char>,
) -> spec_fn(Elem) -> bool {
    |e: Elem| prop_match(e, k1, v1) && attr_of(e, k2) == Some(v2)
}

/// Whether a selector match can deliver a value: the element matches and
/// its `content` attribute is present.
pub open spec fn qualifies(e: Elem, m: spec_fn(Elem) -> bool) -> bool {
    m(e) && attr_of(e, "content"@) is Some
}

/// The `content` of the first element that matches `m` and carries one:
/// the raw value a scalar item decodes.
pub open spec fn first_content(elems: Seq<Elem>, m: spec_fn(Elem) -> bool) -> Option<Seq<char>>
    decreases elems.len(),
{
    if elems.len() == 0 {
        None
    } else {
        match first_content(elems.drop_last(), m) {
            Some(r) => Some(r),
            None => {
                let e = elems.last();
                if qualifies(e, m) {
                    attr_of(e, "content"@)
                } else {
                    None
                }
            },
        }
    }
}

/// A scalar field's final value: the decode of the raw value fetched by
/// the first qualifying element, absent when it is rejected.
pub open spec fn scalar_val<V>(
    elems: Seq<Elem>,
    m: spec_fn(Elem) -> bool,
    dec: spec_fn(Seq<char>) -> Option<V>,
) -> Option<V> {
    match first_content(elems, m) {
        Some(r) => dec(r),
        None => None,
    }
}

/// A list field's final value: every successful decode over every
/// qualifying element, in document order.
pub open spec fn list_vals<V>(
    elems: Seq<Elem>,
    m: spec_fn(Elem) -> bool,
    dec: spec_fn(Seq<char>) -> Option<V>,
) -> Seq<V>
    decreases elems.len(),
{
    if elems.len() == 0 {
        Seq::empty()
    } else {
        let pre = list_vals(elems.drop_last(), m, dec);
        let e = elems.last();
        if qualifies(e, m) && dec(attr_of(e, "content"@)->0) is Some {
            pre.push(dec(attr_of(e, "content"@)->0)->0)
        } else {
            pre
        }
    }
}

/// Whether any element matches `m`: what a presence-only item reads.
pub open spec fn any_hit(elems: Seq<Elem>, m: spec_fn(Elem) -> bool) -> bool
    decreases elems.len(),
{
    if elems.len() == 0 {
        false
    } else {
        any_hit(elems.drop_last(), m) || m(elems.last())
    }
}

/// Whether a raw value is accepted by the decode `dec`.
pub open spec fn okf<V>(dec: spec_fn(Seq<char>) -> Option<V>) -> spec_fn(Seq<char>) -> bool {
    |r: Seq<char>| dec(r) is Some
}

/// The failures one scalar item reports at element `e`, after the prefix
/// `pre` has been scanned: nothing once satisfied; a missing-attribute
/// failure when the selector matches without `content`; the item's decode
/// failure when the value is rejected.
pub open spec fn scalar_errs(
    pre: Seq<Elem>,
    e: Elem,
    m: spec_fn(Elem) -> bool,
    ok: spec_fn(Seq<char>) -> bool,
    kind: MetaError,
) -> Seq<MetaError> {
    if first_content(pre, m) is Some {
        Seq::empty()
    } else if m(e) {
        match attr_of(e, "content"@) {
            None => seq![MetaError::ExtractionContentNotFound],
            Some(r) => if ok(r) {
                Seq::empty()
            } else {
                seq![kind]
            },
        }
    } else {
        Seq::empty()
    }
}

/// The failures one list item reports at element `e`: list items are
/// never satisfied, so every matching element is inspected.
pub open spec fn list_errs(
    e: Elem,
    m: spec_fn(Elem) -> bool,
    ok: spec_fn(Seq<char>) -> bool,
    kind: MetaError,
) -> Seq<MetaError> {
    if m(e) {
        match attr_of(e, "content"@) {
            None => seq![MetaError::ExtractionContentNotFound],
            Some(r) => if ok(r) {
                Seq::empty()
            } else {
                seq![kind]
            },
        }
    } else {
        Seq::empty()
    }
}

/// One scan step: how the raw scalar value evolves when `e` follows `pre`.
pub proof fn lemma_first_content_push(elems: Seq<Elem>, e: Elem, m: spec_fn(Elem) -> bool)
    ensures
        first_content(elems.push(e), m) == (match first_content(elems, m) {
            Some(r) => Some(r),
            None => if qualifies(e, m) {
                attr_of(e, "content"@)
            } else {
                None
            },
        }),
{
    assert(elems.push(e).drop_last() =~= elems);
}

/// One scan step for list items.
pub proof fn lemma_list_vals_push<V>(
    elems: Seq<Elem>,
    e: Elem,
    m: spec_fn(Elem) -> bool,
    dec: spec_fn(Seq<char>) -> Option<V>,
)
    ensures
        list_vals(elems.push(e), m, dec) == (if qualifies(e, m) && dec(
            attr_of(e, "content"@)->0,
        ) is Some {
            list_vals(elems, m, dec).push(dec(attr_of(e, "content"@)->0)->0)
        } else {
            list_vals(elems, m, dec)
        }),
{
    assert(elems.push(e).drop_last() =~= elems);
}

/// One scan step for presence-only items.
pub proof fn lemma_any_hit_push(elems: Seq<Elem>, e: Elem, m: spec_fn(Elem) -> bool)
    ensures
        any_hit(elems.push(e), m) == (any_hit(elems, m) || m(e)),
{
    assert(elems.push(e).drop_last() =~= elems);
}

/// A stretch of elements none of which can deliver a value leaves a
/// scalar item unsatisfied.
pub proof fn lemma_no_match_no_content(elems: Seq<Elem>, m: spec_fn(Elem) -> bool)
    requires
        forall|k: int| 0 <= k < elems.len() ==> !qualifies(#[trigger] elems[k], m),
    ensures
        first_content(elems, m) is None,
    decreases elems.len(),
{
    if elems.len() > 0 {
        assert(forall|k: int|
            0 <= k < elems.drop_last().len() ==> #[trigger] elems.drop_last()[k] == elems[k]);
        lemma_no_match_no_content(elems.drop_last(), m);
    }
}

/// First match wins: a scalar item reflects exactly the first element,
/// in document order, that matches its selector and carries the target
/// attribute; later matching elements cannot overwrite it.
pub proof fn lemma_first_match_wins(elems: Seq<Elem>, m: spec_fn(Elem) -> bool, i: int)
    requires
        0 <= i < elems.len(),
        qualifies(elems[i], m),
        forall|k: int| 0 <= k < i ==> !qualifies(#[trigger] elems[k], m),
    ensures
        first_content(elems, m) == attr_of(elems[i], "content"@),
    decreases elems.len(),
{
    if i < elems.len() - 1 {
        assert(forall|k: int|
            0 <= k < elems.drop_last().len() ==> #[trigger] elems.drop_last()[k] == elems[k]);
        lemma_first_match_wins(elems.drop_last(), m, i);
    } else {
        lemma_no_match_no_content(elems.drop_last(), m);
    }
}

/// Whether `el` is a `meta` element carrying attribute `key` with exactly
/// `val`.
pub fn match_prop(el: &Elem, key: &str, val: &str) -> (b: bool)
    ensures
        b == prop_match(*el, key@, val@),
{
    crate::elem::str_eq(el.name.as_str(), "meta") && el.has_attr_value(key, val)
}

/// How a string-valued item vets its raw value.
#[derive(Debug, Clone, Copy, PartialEq, Eq, Structural)]
pub enum StrRule {
    /// Plain text, taken verbatim.
    Plain,
    /// Must parse as a MIME type; stored verbatim.
    MimeKind,
    /// Must parse as a language identifier; stored verbatim.
    LangKind,
    /// Must parse as a URL; stored in normalized form.
    UrlKind,
    /// Must parse as an ISBN; stored verbatim.
    IsbnKind,
}

/// The decode a string rule performs.
pub open spec fn decf_str(rule: StrRule) -> spec_fn(Seq<char>) -> Option<Seq<char>> {
    |r: Seq<char>|
        match rule {
            StrRule::Plain => Some(r),
            StrRule::MimeKind => if mime_ok(r) {
                Some(r)
            } else {
                None
            },
            StrRule::LangKind => if langid_ok(r) {
                Some(r)
            } else {
                None
            },
            StrRule::UrlKind => url_normalized(r),
            StrRule::IsbnKind => if isbn_ok(r) {
                Some(r)
            } else {
                None
            },
        }
}

/// The failure a string rule reports when it rejects a value.
pub open spec fn spec_str_rule_err(rule: StrRule) -> MetaError {
    match rule {
        StrRule::Plain => MetaError::WrongMetadataType,
        StrRule::MimeKind => MetaError::MimeFromStr,
        StrRule::LangKind => MetaError::LanguageIdentifier,
        StrRule::UrlKind => MetaError::UrlParse,
        StrRule::IsbnKind => MetaError::Isbn,
    }
}

/// Vet `raw` under `rule`, handing back what is stored on success.
fn apply_str_rule(rule: StrRule, raw: &String) -> (r: Option<String>)
    ensures
        r.deep_view() == decf_str(rule)(raw@),
{
    match rule {
        StrRule::Plain => Some(raw.clone()),
        StrRule::MimeKind => {
            if mime_check(raw.as_str()) {
                Some(raw.clone())
            } else {
                None
            }
        },
        StrRule::LangKind => {
            if langid_check(raw.as_str()) {
                Some(raw.clone())
            } else {
                None
            }
        },
        StrRule::UrlKind => parse_url(raw.as_str()),
        StrRule::IsbnKind => {
            if isbn_check(raw.as_str()) {
                Some(raw.clone())
            } else {
                None
            }
        },
    }
}

/// The failure value a string rule reports.
fn str_rule_err(rule: StrRule) -> (e: MetaError)
    ensures
        e == spec_str_rule_err(rule),
{
    match rule {
        StrRule::Plain => MetaError::WrongMetadataType,
        StrRule::MimeKind => MetaError::MimeFromStr,
        StrRule::LangKind => MetaError::LanguageIdentifier,
        StrRule::UrlKind => MetaError::UrlParse,
        StrRule::IsbnKind => MetaError::Isbn,
    }
}

/// One scan step of a scalar string-valued item over selector
/// `meta[key="val"]`.
pub(crate) fn scan_scalar_str(
    field: &mut Option<String>,
    sat: &mut bool,
    errors: &mut Errors,
    el: &Elem,
    key: &str,
    val: &str,
    rule: StrRule,
    Ghost(pre): Ghost<Seq<Elem>>,
)
    requires
        *old(sat) == (first_content(pre, sel1(key@, val@)) is Some),
        old(field).deep_view() == scalar_val(pre, sel1(key@, val@), decf_str(rule)),
    ensures
        *final(sat) == (first_content(pre.push(*el), sel1(key@, val@)) is Some),
        final(field).deep_view() == scalar_val(pre.push(*el), sel1(key@, val@), decf_str(rule)),
        final(errors)@ == old(errors)@ + scalar_errs(
            pre,
            *el,
            sel1(key@, val@),
            okf(decf_str(rule)),
            spec_str_rule_err(rule),
        ),
{
    proof {
        lemma_first_content_push(pre, *el, sel1(key@, val@));
    }
    let ghost errs0 = errors@;
    if !*sat {
        if match_prop(el, key, val) {
            match el.get_attr("content") {
                None => {
                    errors.err(MetaError::ExtractionContentNotFound);
                },
                Some(raw) => {
                    *sat = true;
                    let raw = raw.clone();
                    match apply_str_rule(rule, &raw) {
                        Some(v) => {
                            *field = Some(v);
                        },
                        None => {
                            errors.err(str_rule_err(rule));
                        },
                    }
                },
            }
        }
    }
    assert(errors@ =~= errs0 + scalar_errs(
        pre,
        *el,
        sel1(key@, val@),
        okf(decf_str(rule)),
        spec_str_rule_err(rule),
    ));
}

/// One scan step of the language item, whose selector is the disjunction
/// `meta[name="language"], meta[http-equiv="content-language"]`.
pub(crate) fn scan_scalar_lang2(
    field: &mut Option<String>,
    sat: &mut bool,
    errors: &mut Errors,
    el: &Elem,
    k1: &str,
    v1: &str,
    k2: &str,
    v2: &str,
    Ghost(pre): Ghost<Seq<Elem>>,
)
    requires
        *old(sat) == (first_content(pre, sel2(k1@, v1@, k2@, v2@)) is Some),
        old(field).deep_view() == scalar_val(
            pre,
            sel2(k1@, v1@, k2@, v2@),
            decf_str(StrRule::LangKind),
        ),
    ensures
        *final(sat) == (first_content(pre.push(*el), sel2(k1@, v1@, k2@, v2@)) is Some),
        final(field).deep_view() == scalar_val(
            pre.push(*el),
            sel2(k1@, v1@, k2@, v2@),
            decf_str(StrRule::LangKind),
        ),
        final(errors)@ == old(errors)@ + scalar_errs(
            pre,
            *el,
            sel2(k1@, v1@, k2@, v2@),
            okf(decf_str(StrRule::LangKind)),
            MetaError::LanguageIdentifier,
        ),
{
    proof {
        lemma_first_content_push(pre, *el, sel2(k1@, v1@, k2@, v2@));
    }
    let ghost errs0 = errors@;
    if !*sat {
        let hit = match_prop(el, k1, v1) || match_prop(el, k2, v2);
        if hit {
            match el.get_attr("content") {
                None => {
                    errors.err(MetaError::ExtractionContentNotFound);
                },
                Some(raw) => {
                    *sat = true;
                    let raw = raw.clone();
                    if langid_check(raw.as_str()) {
                        *field = Some(raw);
                    } else {
                        errors.err(MetaError::LanguageIdentifier);
                    }
                },
            }
        }
    }
    assert(errors@ =~= errs0 + scalar_errs(
        pre,
        *el,
        sel2(k1@, v1@, k2@, v2@),
        okf(decf_str(StrRule::LangKind)),
        MetaError::LanguageIdentifier,
    ));
}

/// The decode of a title item: ASCII transliteration, never failing.
pub open spec fn decf_title() -> spec_fn(Seq<char>) -> Option<Seq<char>> {
    |r: Seq<char>| Some(ascii_fold(r))
}

/// One scan step of a scalar title item.
pub(crate) fn scan_scalar_title(
    field: &mut Option<Title>,
    sat: &mut bool,
    errors: &mut Errors,
    el: &Elem,
    key: &str,
    val: &str,
    Ghost(pre): Ghost<Seq<Elem>>,
)
    requires
        *old(sat) == (first_content(pre, sel1(key@, val@)) is Some),
        old(field).deep_view() == scalar_val(pre, sel1(key@, val@), decf_title()),
        *old(field) matches Some(t) ==> t.wf(),
    ensures
        *final(sat) == (first_content(pre.push(*el), sel1(key@, val@)) is Some),
        final(field).deep_view() == scalar_val(pre.push(*el), sel1(key@, val@), decf_title()),
        *final(field) matches Some(t) ==> t.wf(),
        final(errors)@ == old(errors)@ + scalar_errs(
            pre,
            *el,
            sel1(key@, val@),
            okf(decf_title()),
            MetaError::WrongMetadataType,
        ),
{
    proof {
        lemma_first_content_push(pre, *el, sel1(key@, val@));
    }
    let ghost errs0 = errors@;
    if !*sat {
        if match_prop(el, key, val) {
            match el.get_attr("content") {
                None => {
                    errors.err(MetaError::ExtractionContentNotFound);
                },
                Some(raw) => {
                    *sat = true;
                    let raw = raw.clone();
                    *field = Some(Title::new(raw.as_str()));
                },
            }
        }
    }
    assert(errors@ =~= errs0 + scalar_errs(
        pre,
        *el,
        sel1(key@, val@),
        okf(decf_title()),
        MetaError::WrongMetadataType,
    ));
}

/// The decode of a person-name item.
pub open spec fn decf_person() -> spec_fn(Seq<char>) -> Option<NameV> {
    |r: Seq<char>| person_of(r)
}

/// One scan step of a scalar person-name item.
pub(crate) fn scan_scalar_name(
    field: &mut Option<Name>,
    sat: &mut bool,
    errors: &mut Errors,
    el: &Elem,
    key: &str,
    val: &str,
    Ghost(pre): Ghost<Seq<Elem>>,
)
    requires
        *old(sat) == (first_content(pre, sel1(key@, val@)) is Some),
        old(field).deep_view() == scalar_val(pre, sel1(key@, val@), decf_person()),
    ensures
        *final(sat) == (first_content(pre.push(*el), sel1(key@, val@)) is Some),
        final(field).deep_view() == scalar_val(pre.push(*el), sel1(key@, val@), decf_person()),
        final(errors)@ == old(errors)@ + scalar_errs(
            pre,
            *el,
            sel1(key@, val@),
            okf(decf_person()),
            MetaError::NameParse,
        ),
{
    proof {
        lemma_first_content_push(pre, *el, sel1(key@, val@));
    }
    let ghost errs0 = errors@;
    if !*sat {
        if match_prop(el, key, val) {
            match el.get_attr("content") {
                None => {
                    errors.err(MetaError::ExtractionContentNotFound);
                },
                Some(raw) => {
                    *sat = true;
                    let raw = raw.clone();
                    match Name::parse(raw.as_str()) {
                        Ok(nm) => {
                            *field = Some(nm);
                        },
                        Err(e) => {
                            errors.err(e);
                        },
                    }
                },
            }
        }
    }
    assert(errors@ =~= errs0 + scalar_errs(
        pre,
        *el,
        sel1(key@, val@),
        okf(decf_person()),
        MetaError::NameParse,
    ));
}

/// The calendar day a date field holds, as plain integers.
pub open spec fn opt_date_view(o: Option<DateIso8601>) -> Option<(int, int, int)> {
    match o {
        Some(d) => Some((d.year as int, d.month as int, d.day as int)),
        None => None,
    }
}

/// The decode of a date item.
pub open spec fn decf_date() -> spec_fn(Seq<char>) -> Option<(int, int, int)> {
    |r: Seq<char>| rfc3339_date(r)
}

/// One scan step of a scalar date item.
pub(crate) fn scan_scalar_date(
    field: &mut Option<DateIso8601>,
    sat: &mut bool,
    errors: &mut Errors,
    el: &Elem,
    key: &str,
    val: &str,
    Ghost(pre): Ghost<Seq<Elem>>,
)
    requires
        *old(sat) == (first_content(pre, sel1(key@, val@)) is Some),
        opt_date_view(*old(field)) == scalar_val(pre, sel1(key@, val@), decf_date()),
        *old(field) matches Some(d) ==> d.wf(),
    ensures
        *final(sat) == (first_content(pre.push(*el), sel1(key@, val@)) is Some),
        opt_date_view(*final(field)) == scalar_val(pre.push(*el), sel1(key@, val@), decf_date()),
        *final(field) matches Some(d) ==> d.wf(),
        final(errors)@ == old(errors)@ + scalar_errs(
            pre,
            *el,
            sel1(key@, val@),
            okf(decf_date()),
            MetaError::DateParse,
        ),
{
    proof {
        lemma_first_content_push(pre, *el, sel1(key@, val@));
    }
    let ghost errs0 = errors@;
    if !*sat {
        if match_prop(el, key, val) {
            match el.get_attr("content") {
                None => {
                    errors.err(MetaError::ExtractionContentNotFound);
                },
                Some(raw) => {
                    *sat = true;
                    let raw = raw.clone();
                    match DateIso8601::from_str(raw.as_str()) {
                        Ok(d) => {
                            *field = Some(d);
                        },
                        Err(e) => {
                            errors.err(e);
                        },
                    }
                },
            }
        }
    }
    assert(errors@ =~= errs0 + scalar_errs(
        pre,
        *el,
        sel1(key@, val@),
        okf(decf_date()),
        MetaError::DateParse,
    ));
}

/// The numeric value a `u32` field holds.
pub open spec fn opt_u32_view(o: Option<u32>) -> Option<int> {
    match o {
        Some(v) => Some(v as int),
        None => None,
    }
}

/// The decode of an unsigned-integer item.
pub open spec fn decf_u32() -> spec_fn(Seq<char>) -> Option<int> {
    |r: Seq<char>| spec_parse_u32(r)
}

/// One scan step of a scalar unsigned-integer item.
pub(crate) fn scan_scalar_u32(
    field: &mut Option<u32>,
    sat: &mut bool,
    errors: &mut Errors,
    el: &Elem,
    key: &str,
    val: &str,
    Ghost(pre): Ghost<Seq<Elem>>,
)
    requires
        *old(sat) == (first_content(pre, sel1(key@, val@)) is Some),
        opt_u32_view(*old(field)) == scalar_val(pre, sel1(key@, val@), decf_u32()),
    ensures
        *final(sat) == (first_content(pre.push(*el), sel1(key@, val@)) is Some),
        opt_u32_view(*final(field)) == scalar_val(pre.push(*el), sel1(key@, val@), decf_u32()),
        final(errors)@ == old(errors)@ + scalar_errs(
            pre,
            *el,
            sel1(key@, val@),
            okf(decf_u32()),
            MetaError::IntParse,
        ),
{
    proof {
        lemma_first_content_push(pre, *el, sel1(key@, val@));
    }
    let ghost errs0 = errors@;
    if !*sat {
        if match_prop(el, key, val) {
            match el.get_attr("content") {
                None => {
                    errors.err(MetaError::ExtractionContentNotFound);
                },
                Some(raw) => {
                    *sat = true;
                    match parse_u32(raw.as_str()) {
                        Some(v) => {
                            *field = Some(v);
                        },
                        None => {
                            errors.err(MetaError::IntParse);
                        },
                    }
                },
            }
        }
    }
    assert(errors@ =~= errs0 + scalar_errs(
        pre,
        *el,
        sel1(key@, val@),
        okf(decf_u32()),
        MetaError::IntParse,
    ));
}

/// One scan step of a list string-valued item: every matching element may
/// contribute, none ever satisfies the item.
pub(crate) fn scan_list_str(
    list: &mut Vec<String>,
    errors: &mut Errors,
    el: &Elem,
    key: &str,
    val: &str,
    rule: StrRule,
    Ghost(pre): Ghost<Seq<Elem>>,
)
    requires
        old(list).deep_view() == list_vals(pre, sel1(key@, val@), decf_str(rule)),
    ensures
        final(list).deep_view() == list_vals(pre.push(*el), sel1(key@, val@), decf_str(rule)),
        final(errors)@ == old(errors)@ + list_errs(
            *el,
            sel1(key@, val@),
            okf(decf_str(rule)),
            spec_str_rule_err(rule),
        ),
{
    proof {
        lemma_list_vals_push(pre, *el, sel1(key@, val@), decf_str(rule));
    }
    let ghost errs0 = errors@;
    if match_prop(el, key, val) {
        match el.get_attr("content") {
            None => {
                errors.err(MetaError::ExtractionContentNotFound);
            },
            Some(raw) => {
                let raw = raw.clone();
                match apply_str_rule(rule, &raw) {
                    Some(v) => {
                        list.push(v);
                    },
                    None => {
                        errors.err(str_rule_err(rule));
                    },
                }
            },
        }
    }
    assert(errors@ =~= errs0 + list_errs(
        *el,
        sel1(key@, val@),
        okf(decf_str(rule)),
        spec_str_rule_err(rule),
    ));
    assert(list.deep_view() =~= list_vals(pre.push(*el), sel1(key@, val@), decf_str(rule)));
}

/// One scan step of a list person-name item.
pub(crate) fn scan_list_name(
    list: &mut Vec<Name>,
    errors: &mut Errors,
    el: &Elem,
    key: &str,
    val: &str,
    Ghost(pre): Ghost<Seq<Elem>>,
)
    requires
        old(list).deep_view() == list_vals(pre, sel1(key@, val@), decf_person()),
    ensures
        final(list).deep_view() == list_vals(pre.push(*el), sel1(key@, val@), decf_person()),
        final(errors)@ == old(errors)@ + list_errs(
            *el,
            sel1(key@, val@),
            okf(decf_person()),
            MetaError::NameParse,
        ),
{
    proof {
        lemma_list_vals_push(pre, *el, sel1(key@, val@), decf_person());
    }
    let ghost errs0 = errors@;
    if match_prop(el, key, val) {
        match el.get_attr("content") {
            None => {
                errors.err(MetaError::ExtractionContentNotFound);
            },
            Some(raw) => {
                let raw = raw.clone();
                match Name::parse(raw.as_str()) {
                    Ok(nm) => {
                        list.push(nm);
                    },
                    Err(e) => {
                        errors.err(e);
                    },
                }
            },
        }
    }
    assert(errors@ =~= errs0 + list_errs(
        *el,
        sel1(key@, val@),
        okf(decf_person()),
        MetaError::NameParse,
    ));
    assert(list.deep_view() =~= list_vals(pre.push(*el), sel1(key@, val@), decf_person()));
}

/// One scan step of a presence-only discriminator item over the selector
/// `meta[k1="v1"][k2="v2"]`: it only raises a flag, and never reports a
/// failure.
pub(crate) fn scan_flag(
    flag: &mut bool,
    el: &Elem,
    k1: &str,
    v1: &str,
    k2: &str,
    v2: &str,
    Ghost(pre): Ghost<Seq<Elem>>,
)
    requires
        *old(flag) == any_hit(pre, selc(k1@, v1@, k2@, v2@)),
    ensures
        *final(flag) == any_hit(pre.push(*el), selc(k1@, v1@, k2@, v2@)),
{
    proof {
        lemma_any_hit_push(pre, *el, selc(k1@, v1@, k2@, v2@));
    }
    if !*flag {
        if match_prop(el, k1, v1) && el.has_attr_value(k2, v2) {
            *flag = true;
        }
    }
}

} // verus!
