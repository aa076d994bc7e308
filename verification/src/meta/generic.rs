//! The generic `<meta name=...>` vocabulary: its item registry and its
//! single-pass extraction.

use vstd::prelude::*;
use crate::elem::Elem;
use crate::error::Errors;
use crate::error::MetaError;
use crate::meta::item::decf_person;
use crate::meta::item::decf_str;
use crate::meta::item::decf_title;
use crate::meta::item::first_content;
use crate::meta::item::list_errs;
use crate::meta::item::list_vals;
use crate::meta::item::match_prop;
use crate::meta::item::okf;
use crate::meta::item::scalar_errs;
use crate::meta::item::scalar_val;
use crate::meta::item::scan_list_str;
use crate::meta::item::scan_scalar_lang2;
use crate::meta::item::scan_scalar_name;
use crate::meta::item::scan_scalar_str;
use crate::meta::item::scan_scalar_title;
use crate::meta::item::sel1;
use crate::meta::item::sel2;
use crate::meta::item::MetadataItemTarget;
use crate::meta::item::StrRule;
use crate::meta::value::name::Name;
use crate::meta::value::name::NameV;
use crate::meta::value::title::Title;

verus! {

/// The fields the generic vocabulary populates.
#[derive(Debug)]
pub struct GenericMetadata {
    pub title: Option<Title>,
    pub content_type: Option<String>,
    pub description: Option<String>,
    pub keywords: Vec<String>,
    pub language: Option<String>,
    pub author: Option<Name>,
}

/// The closed set of generic metadata items.
#[derive(Debug, Clone, Copy)]
pub enum GenericMetadataItem {
    Title,
    ContentType,
    Description,
    Keyword,
    Language,
    Author,
}

/// The title field: the first `meta[name="title"]` content, normalized.
pub open spec fn spec_gen_title(elems: Seq<Elem>) -> Option<Seq<char>> {
    scalar_val(elems, sel1("name"@, "title"@), decf_title())
}

/// The content-type field: the first accepted MIME value.
pub open spec fn spec_gen_content_type(elems: Seq<Elem>) -> Option<Seq<char>> {
    scalar_val(elems, sel1("name"@, "content-type"@), decf_str(StrRule::MimeKind))
}

/// The description field: the first description content, verbatim.
pub open spec fn spec_gen_description(elems: Seq<Elem>) -> Option<Seq<char>> {
    scalar_val(elems, sel1("name"@, "description"@), decf_str(StrRule::Plain))
}

/// The keywords field: every keywords content, in document order.
pub open spec fn spec_gen_keywords(elems: Seq<Elem>) -> Seq<Seq<char>> {
    list_vals(elems, sel1("name"@, "keywords"@), decf_str(StrRule::Plain))
}

/// The language field: the first accepted language identifier, from
/// either of the two language selectors.
pub open spec fn spec_gen_language(elems: Seq<Elem>) -> Option<Seq<char>> {
    scalar_val(
        elems,
        sel2("name"@, "language"@, "http-equiv"@, "content-language"@),
        decf_str(StrRule::LangKind),
    )
}

/// The author field: the first author content that decodes to a person.
pub open spec fn spec_gen_author(elems: Seq<Elem>) -> Option<NameV> {
    scalar_val(elems, sel1("name"@, "author"@), decf_person())
}

/// The failures one element contributes, items in registry order.
pub open spec fn gen_elem_errs(pre: Seq<Elem>, e: Elem) -> Seq<MetaError> {
    scalar_errs(pre, e, sel1("name"@, "author"@), okf(decf_person()), MetaError::NameParse)
        + scalar_errs(
        pre,
        e,
        sel1("name"@, "content-type"@),
        okf(decf_str(StrRule::MimeKind)),
        MetaError::MimeFromStr,
    ) + scalar_errs(
        pre,
        e,
        sel1("name"@, "description"@),
        okf(decf_str(StrRule::Plain)),
        MetaError::WrongMetadataType,
    ) + list_errs(
        e,
        sel1("name"@, "keywords"@),
        okf(decf_str(StrRule::Plain)),
        MetaError::WrongMetadataType,
    ) + scalar_errs(
        pre,
        e,
        sel2("name"@, "language"@, "http-equiv"@, "content-language"@),
        okf(decf_str(StrRule::LangKind)),
        MetaError::LanguageIdentifier,
    ) + scalar_errs(
        pre,
        e,
        sel1("name"@, "title"@),
        okf(decf_title()),
        MetaError::WrongMetadataType,
    )
}

/// Every failure of a full scan, element-major, items in registry order.
pub open spec fn gen_errs(elems: Seq<Elem>) -> Seq<MetaError>
    decreases elems.len(),
{
    if elems.len() == 0 {
        Seq::empty()
    } else {
        gen_errs(elems.drop_last()) + gen_elem_errs(elems.drop_last(), elems.last())
    }
}

impl GenericMetadataItem {
    /// Whether this item's selector matches `el`.
    pub fn is_match(&self, el: &Elem) -> (b: bool)
        ensures
            b == match *self {
                GenericMetadataItem::Title => sel1("name"@, "title"@)(*el),
                GenericMetadataItem::ContentType => sel1("name"@, "content-type"@)(*el),
                GenericMetadataItem::Description => sel1("name"@, "description"@)(*el),
                GenericMetadataItem::Keyword => sel1("name"@, "keywords"@)(*el),
                GenericMetadataItem::Language => sel2(
                    "name"@,
                    "language"@,
                    "http-equiv"@,
                    "content-language"@,
                )(*el),
                GenericMetadataItem::Author => sel1("name"@, "author"@)(*el),
            },
    {
        match self {
            GenericMetadataItem::Title => match_prop(el, "name", "title"),
            GenericMetadataItem::ContentType => match_prop(el, "name", "content-type"),
            GenericMetadataItem::Description => match_prop(el, "name", "description"),
            GenericMetadataItem::Keyword => match_prop(el, "name", "keywords"),
            GenericMetadataItem::Language => {
                let a = match_prop(el, "name", "language");
                let b = match_prop(el, "http-equiv", "content-language");
                a || b
            },
            GenericMetadataItem::Author => match_prop(el, "name", "author"),
        }
    }

    /// Every generic item reads the `content` attribute.
    pub fn target(&self) -> (t: MetadataItemTarget)
        ensures
            t matches MetadataItemTarget::Attr(a) && a@ == "content"@,
    {
        MetadataItemTarget::Attr("content".to_owned())
    }
}

impl GenericMetadata {
    /// Scan `elems` once, in document order, applying every still
    /// unsatisfied item per element: scalar fields keep the first
    /// successfully fetched value, the keywords list accumulates every
    /// match, and every failure is aggregated without aborting.
    pub fn extract(elems: &Vec<Elem>) -> (r: (GenericMetadata, Errors))
        ensures
            r.0.title.deep_view() == spec_gen_title(elems@),
            r.0.content_type.deep_view() == spec_gen_content_type(elems@),
            r.0.description.deep_view() == spec_gen_description(elems@),
            r.0.keywords.deep_view() == spec_gen_keywords(elems@),
            r.0.language.deep_view() == spec_gen_language(elems@),
            r.0.author.deep_view() == spec_gen_author(elems@),
            r.0.title matches Some(t) ==> t.wf(),
            r.1@ == gen_errs(elems@),
    {
        let mut m = GenericMetadata {
            title: None,
            content_type: None,
            description: None,
            keywords: Vec::new(),
            language: None,
            author: None,
        };
        let mut errors = Errors::new();
        let mut sat_title: bool = false;
        let mut sat_content_type: bool = false;
        let mut sat_description: bool = false;
        let mut sat_language: bool = false;
        let mut sat_author: bool = false;
        let n = elems.len();
        let mut j: usize = 0;
        assert(elems@.take(0) =~= Seq::<Elem>::empty());
        while j < n
            invariant
                j <= n,
                n == elems@.len(),
                sat_title == (first_content(elems@.take(j as int), sel1("name"@, "title"@))
                    is Some),
                sat_content_type == (first_content(
                    elems@.take(j as int),
                    sel1("name"@, "content-type"@),
                ) is Some),
                sat_description == (first_content(
                    elems@.take(j as int),
                    sel1("name"@, "description"@),
                ) is Some),
                sat_language == (first_content(
                    elems@.take(j as int),
                    sel2("name"@, "language"@, "http-equiv"@, "content-language"@),
                ) is Some),
                sat_author == (first_content(elems@.take(j as int), sel1("name"@, "author"@))
                    is Some),
                m.title.deep_view() == spec_gen_title(elems@.take(j as int)),
                m.content_type.deep_view() == spec_gen_content_type(elems@.take(j as int)),
                m.description.deep_view() == spec_gen_description(elems@.take(j as int)),
                m.keywords.deep_view() == spec_gen_keywords(elems@.take(j as int)),
                m.language.deep_view() == spec_gen_language(elems@.take(j as int)),
                m.author.deep_view() == spec_gen_author(elems@.take(j as int)),
                m.title matches Some(t) ==> t.wf(),
                errors@ == gen_errs(elems@.take(j as int)),
            decreases n - j,
        {
            let ghost pre = elems@.take(j as int);
            let el = &elems[j];
            let ghost errs0 = errors@;
            scan_scalar_name(
                &mut m.author,
                &mut sat_author,
                &mut errors,
                el,
                "name",
                "author",
                Ghost(pre),
            );
            scan_scalar_str(
                &mut m.content_type,
                &mut sat_content_type,
                &mut errors,
                el,
                "name",
                "content-type",
                StrRule::MimeKind,
                Ghost(pre),
            );
            scan_scalar_str(
                &mut m.description,
                &mut sat_description,
                &mut errors,
                el,
                "name",
                "description",
                StrRule::Plain,
                Ghost(pre),
            );
            scan_list_str(
                &mut m.keywords,
                &mut errors,
                el,
                "name",
                "keywords",
                StrRule::Plain,
                Ghost(pre),
            );
            scan_scalar_lang2(
                &mut m.language,
                &mut sat_language,
                &mut errors,
                el,
                "name",
                "language",
                "http-equiv",
                "content-language",
                Ghost(pre),
            );
            scan_scalar_title(
                &mut m.title,
                &mut sat_title,
                &mut errors,
                el,
                "name",
                "title",
                Ghost(pre),
            );
            proof {
                assert(errors@ =~= errs0 + gen_elem_errs(pre, elems@[j as int]));
                assert(elems@.take(j + 1) =~= pre.push(elems@[j as int]));
                assert(elems@.take(j + 1).drop_last() =~= pre);
            }
            j = j + 1;
        }
        assert(elems@.take(n as int) =~= elems@);
        (m, errors)
    }
}

} // verus!
