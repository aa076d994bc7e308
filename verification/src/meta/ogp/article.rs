//! The Open Graph article object: its discriminator, its items and its
//! fields.

use vstd::prelude::*;
use crate::elem::Elem;
use crate::error::Errors;
use crate::error::MetaError;
use crate::meta::item::any_hit;
use crate::meta::item::decf_date;
use crate::meta::item::decf_person;
use crate::meta::item::decf_str;
use crate::meta::item::first_content;
use crate::meta::item::list_errs;
use crate::meta::item::list_vals;
use crate::meta::item::match_prop;
use crate::meta::item::okf;
use crate::meta::item::opt_date_view;
use crate::meta::item::scalar_errs;
use crate::meta::item::scalar_val;
use crate::meta::item::scan_flag;
use crate::meta::item::scan_list_name;
use crate::meta::item::scan_list_str;
use crate::meta::item::scan_scalar_date;
use crate::meta::item::scan_scalar_str;
use crate::meta::item::sel1;
use crate::meta::item::selc;
use crate::meta::item::MetadataItemTarget;
use crate::meta::item::StrRule;
use crate::meta::value::date::DateIso8601;
use crate::meta::value::name::Name;

verus! {

/// The article a document declares itself to be.
#[derive(Debug)]
pub struct OgpArticle {
    /// Whether the document declares `og:type=article`.
    pub is_article: bool,
    /// When the article was first published.
    pub published_time: Option<DateIso8601>,
    /// When the article was last changed.
    pub modified_time: Option<DateIso8601>,
    /// When the article is out of date after.
    pub expiration_time: Option<DateIso8601>,
    /// Writers of the article.
    pub authors: Vec<Name>,
    /// A high-level section name.
    pub section: Option<String>,
    /// Tag words associated with this article.
    pub tags: Vec<String>,
}

/// The closed set of article items.
#[derive(Debug, Clone, Copy)]
pub enum OgpArticleItem {
    Check,
    PublishedTime,
    ModifiedTime,
    ExpirationTime,
    Author,
    Section,
    Tag,
}

impl OgpArticleItem {
    /// Whether this item's selector matches `el`.
    pub fn is_match(&self, el: &Elem) -> (b: bool)
        ensures
            b == match *self {
                OgpArticleItem::Check => selc("property"@, "og:type"@, "content"@, "article"@)(
                    *el,
                ),
                OgpArticleItem::PublishedTime => sel1(
                    "property"@,
                    "og:article:published_time"@,
                )(*el),
                OgpArticleItem::ModifiedTime => sel1("property"@, "og:article:modified_time"@)(
                    *el,
                ),
                OgpArticleItem::ExpirationTime => sel1(
                    "property"@,
                    "og:article:expiration_time"@,
                )(*el),
                OgpArticleItem::Author => sel1("property"@, "og:article:author"@)(*el),
                OgpArticleItem::Section => sel1("property"@, "og:article:section"@)(*el),
                OgpArticleItem::Tag => sel1("property"@, "og:article:tag"@)(*el),
            },
    {
        match self {
            OgpArticleItem::Check => {
                match_prop(el, "property", "og:type") && el.has_attr_value("content", "article")
            },
            OgpArticleItem::PublishedTime => match_prop(
                el,
                "property",
                "og:article:published_time",
            ),
            OgpArticleItem::ModifiedTime => match_prop(el, "property", "og:article:modified_time"),
            OgpArticleItem::ExpirationTime => match_prop(
                el,
                "property",
                "og:article:expiration_time",
            ),
            OgpArticleItem::Author => match_prop(el, "property", "og:article:author"),
            OgpArticleItem::Section => match_prop(el, "property", "og:article:section"),
            OgpArticleItem::Tag => match_prop(el, "property", "og:article:tag"),
        }
    }

    /// Where this item reads its value: the discriminator reads nothing.
    pub fn target(&self) -> (t: MetadataItemTarget)
        ensures
            match *self {
                OgpArticleItem::Check => t is Presence,
                _ => t matches MetadataItemTarget::Attr(a) && a@ == "content"@,
            },
    {
        match self {
            OgpArticleItem::Check => MetadataItemTarget::Presence,
            _ => MetadataItemTarget::Attr("content".to_owned()),
        }
    }
}

/// The satisfied flags of the scalar article items.
pub(crate) struct ArticleSat {
    pub expiration: bool,
    pub modified: bool,
    pub published: bool,
    pub section: bool,
}

/// The article fields a scan of `elems` settles on.
#[verifier::opaque]
pub open spec fn article_fields(a: OgpArticle, elems: Seq<Elem>) -> bool {
    &&& a.is_article == any_hit(elems, selc("property"@, "og:type"@, "content"@, "article"@))
    &&& opt_date_view(a.published_time) == scalar_val(
        elems,
        sel1("property"@, "og:article:published_time"@),
        decf_date(),
    )
    &&& opt_date_view(a.modified_time) == scalar_val(
        elems,
        sel1("property"@, "og:article:modified_time"@),
        decf_date(),
    )
    &&& opt_date_view(a.expiration_time) == scalar_val(
        elems,
        sel1("property"@, "og:article:expiration_time"@),
        decf_date(),
    )
    &&& a.authors.deep_view() == list_vals(
        elems,
        sel1("property"@, "og:article:author"@),
        decf_person(),
    )
    &&& a.section.deep_view() == scalar_val(
        elems,
        sel1("property"@, "og:article:section"@),
        decf_str(StrRule::Plain),
    )
    &&& a.tags.deep_view() == list_vals(
        elems,
        sel1("property"@, "og:article:tag"@),
        decf_str(StrRule::Plain),
    )
    &&& (a.published_time matches Some(d) ==> d.wf())
    &&& (a.modified_time matches Some(d) ==> d.wf())
    &&& (a.expiration_time matches Some(d) ==> d.wf())
}

/// Which article items a scan of `elems` has satisfied.
#[verifier::opaque]
pub(crate) open spec fn article_sat(sat: ArticleSat, elems: Seq<Elem>) -> bool {
    &&& sat.expiration == (first_content(elems, sel1("property"@, "og:article:expiration_time"@))
        is Some)
    &&& sat.modified == (first_content(elems, sel1("property"@, "og:article:modified_time"@))
        is Some)
    &&& sat.published == (first_content(elems, sel1("property"@, "og:article:published_time"@))
        is Some)
    &&& sat.section == (first_content(elems, sel1("property"@, "og:article:section"@)) is Some)
}

/// The failures the article items report at one element, in registry
/// order; the discriminator never fails.
#[verifier::opaque]
pub open spec fn article_errs(pre: Seq<Elem>, e: Elem) -> Seq<MetaError> {
    list_errs(e, sel1("property"@, "og:article:author"@), okf(decf_person()), MetaError::NameParse)
        + scalar_errs(
        pre,
        e,
        sel1("property"@, "og:article:expiration_time"@),
        okf(decf_date()),
        MetaError::DateParse,
    ) + scalar_errs(
        pre,
        e,
        sel1("property"@, "og:article:modified_time"@),
        okf(decf_date()),
        MetaError::DateParse,
    ) + scalar_errs(
        pre,
        e,
        sel1("property"@, "og:article:published_time"@),
        okf(decf_date()),
        MetaError::DateParse,
    ) + scalar_errs(
        pre,
        e,
        sel1("property"@, "og:article:section"@),
        okf(decf_str(StrRule::Plain)),
        MetaError::WrongMetadataType,
    ) + list_errs(
        e,
        sel1("property"@, "og:article:tag"@),
        okf(decf_str(StrRule::Plain)),
        MetaError::WrongMetadataType,
    )
}

/// Apply the still-unsatisfied article items to one element, in registry
/// order.
#[verifier::rlimit(60)]
pub(crate) fn scan_article(
    a: &mut OgpArticle,
    sat: &mut ArticleSat,
    errors: &mut Errors,
    el: &Elem,
    Ghost(pre): Ghost<Seq<Elem>>,
)
    requires
        article_fields(*old(a), pre),
        article_sat(*old(sat), pre),
    ensures
        article_fields(*final(a), pre.push(*el)),
        article_sat(*final(sat), pre.push(*el)),
        final(errors)@ == old(errors)@ + article_errs(pre, *el),
{
    proof {
        reveal(article_fields);
        reveal(article_sat);
        reveal(article_errs);
    }
    let ghost errs0 = errors@;
    scan_flag(&mut a.is_article, el, "property", "og:type", "content", "article", Ghost(pre));
    scan_list_name(&mut a.authors, errors, el, "property", "og:article:author", Ghost(pre));
    scan_scalar_date(
        &mut a.expiration_time,
        &mut sat.expiration,
        errors,
        el,
        "property",
        "og:article:expiration_time",
        Ghost(pre),
    );
    scan_scalar_date(
        &mut a.modified_time,
        &mut sat.modified,
        errors,
        el,
        "property",
        "og:article:modified_time",
        Ghost(pre),
    );
    scan_scalar_date(
        &mut a.published_time,
        &mut sat.published,
        errors,
        el,
        "property",
        "og:article:published_time",
        Ghost(pre),
    );
    scan_scalar_str(
        &mut a.section,
        &mut sat.section,
        errors,
        el,
        "property",
        "og:article:section",
        StrRule::Plain,
        Ghost(pre),
    );
    scan_list_str(
        &mut a.tags,
        errors,
        el,
        "property",
        "og:article:tag",
        StrRule::Plain,
        Ghost(pre),
    );
    assert(errors@ =~= errs0 + article_errs(pre, *el));
}

} // verus!
