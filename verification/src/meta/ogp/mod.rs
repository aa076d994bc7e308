//! The Open Graph vocabulary: the core items plus the nested image,
//! audio, video, article, book and profile item sets, scanned in one
//! traversal of the element stream.

use vstd::prelude::*;
use crate::elem::Elem;
use crate::error::Errors;
use crate::error::MetaError;
use crate::meta::item::decf_str;
use crate::meta::item::decf_title;
use crate::meta::item::first_content;
use crate::meta::item::list_errs;
use crate::meta::item::list_vals;
use crate::meta::item::match_prop;
use crate::meta::item::okf;
use crate::meta::item::scalar_errs;
use crate::meta::item::scalar_val;
use crate::meta::item::scan_list_str;
use crate::meta::item::scan_scalar_str;
use crate::meta::item::scan_scalar_title;
use crate::meta::item::sel1;
use crate::meta::item::MetadataItemTarget;
use crate::meta::item::StrRule;
use crate::meta::value::title::Title;

pub mod article;
pub mod audio;
pub mod book;
pub mod image;
pub mod profile;
pub mod video;

verus! {

use crate::meta::ogp::article::article_errs;
use crate::meta::ogp::article::article_fields;
use crate::meta::ogp::article::article_sat;
use crate::meta::ogp::article::scan_article;
use crate::meta::ogp::article::ArticleSat;
use crate::meta::ogp::article::OgpArticle;
use crate::meta::ogp::audio::audio_errs;
use crate::meta::ogp::audio::audio_fields;
use crate::meta::ogp::audio::audio_sat;
use crate::meta::ogp::audio::scan_audio;
use crate::meta::ogp::audio::AudioSat;
use crate::meta::ogp::audio::OgpAudio;
use crate::meta::ogp::book::book_errs;
use crate::meta::ogp::book::book_fields;
use crate::meta::ogp::book::book_sat;
use crate::meta::ogp::book::scan_book;
use crate::meta::ogp::book::BookSat;
use crate::meta::ogp::book::OgpBook;
use crate::meta::ogp::image::image_errs;
use crate::meta::ogp::image::image_fields;
use crate::meta::ogp::image::image_sat;
use crate::meta::ogp::image::scan_image;
use crate::meta::ogp::image::ImageSat;
use crate::meta::ogp::image::OgpImage;
use crate::meta::ogp::profile::profile_errs;
use crate::meta::ogp::profile::profile_fields;
use crate::meta::ogp::profile::profile_sat;
use crate::meta::ogp::profile::scan_profile;
use crate::meta::ogp::profile::OgpProfile;
use crate::meta::ogp::profile::ProfileSat;
use crate::meta::ogp::video::scan_video;
use crate::meta::ogp::video::video_errs;
use crate::meta::ogp::video::video_fields;
use crate::meta::ogp::video::video_sat;
use crate::meta::ogp::video::OgpVideo;
use crate::meta::ogp::video::VideoSat;

/// The fields the Open Graph vocabulary populates.
#[derive(Debug)]
pub struct OgpMetadata {
    /// The title of the object as it should appear within the graph.
    pub title: Option<Title>,
    /// The type of the object, e.g. "video.movie".
    pub kind: Option<String>,
    pub image: OgpImage,
    /// The canonical URL of the object.
    pub url: Option<String>,
    pub audio: OgpAudio,
    /// A one to two sentence description of the object.
    pub description: Option<String>,
    /// The locale these tags are marked up in.
    pub locale: Option<String>,
    /// Other locales this page is available in.
    pub alternate_locales: Vec<String>,
    /// The name of the larger web site this object belongs to.
    pub site_name: Option<String>,
    pub video: OgpVideo,
    pub article: OgpArticle,
    pub book: OgpBook,
    pub profile: OgpProfile,
}

/// The closed set of core Open Graph items.
#[derive(Debug, Clone, Copy)]
pub enum OgpMetadataItem {
    Title,
    Kind,
    Url,
    Description,
    Locale,
    AlternateLocale,
    SiteName,
}

impl OgpMetadataItem {
    /// Whether this item's selector matches `el`.
    pub fn is_match(&self, el: &Elem) -> (b: bool)
        ensures
            b == match *self {
                OgpMetadataItem::Title => sel1("property"@, "og:title"@)(*el),
                OgpMetadataItem::Kind => sel1("property"@, "og:type"@)(*el),
                OgpMetadataItem::Url => sel1("property"@, "og:url"@)(*el),
                OgpMetadataItem::Description => sel1("property"@, "og:description"@)(*el),
                OgpMetadataItem::Locale => sel1("property"@, "og:locale"@)(*el),
                OgpMetadataItem::AlternateLocale => sel1("property"@, "og:locale:alternate"@)(
                    *el,
                ),
                OgpMetadataItem::SiteName => sel1("property"@, "og:site_name"@)(*el),
            },
    {
        match self {
            OgpMetadataItem::Title => match_prop(el, "property", "og:title"),
            OgpMetadataItem::Kind => match_prop(el, "property", "og:type"),
            OgpMetadataItem::Url => match_prop(el, "property", "og:url"),
            OgpMetadataItem::Description => match_prop(el, "property", "og:description"),
            OgpMetadataItem::Locale => match_prop(el, "property", "og:locale"),
            OgpMetadataItem::AlternateLocale => match_prop(el, "property", "og:locale:alternate"),
            OgpMetadataItem::SiteName => match_prop(el, "property", "og:site_name"),
        }
    }

    /// Every core item reads the `content` attribute.
    pub fn target(&self) -> (t: MetadataItemTarget)
        ensures
            t matches MetadataItemTarget::Attr(a) && a@ == "content"@,
    {
        MetadataItemTarget::Attr("content".to_owned())
    }
}

/// The satisfied flags of the scalar core items.
pub(crate) struct CoreSat {
    pub title: bool,
    pub kind: bool,
    pub url: bool,
    pub description: bool,
    pub locale: bool,
    pub site_name: bool,
}

/// The core fields a scan of `elems` settles on, field by field:
/// `title`, `kind`, `url`, `description`, `locale`, `alternate_locales`
/// and `site_name`.
#[verifier::opaque]
pub open spec fn ogp_core_fields(
    title: Option<Title>,
    kind: Option<String>,
    url: Option<String>,
    description: Option<String>,
    locale: Option<String>,
    alternate_locales: Vec<String>,
    site_name: Option<String>,
    elems: Seq<Elem>,
) -> bool {
    &&& title.deep_view() == scalar_val(elems, sel1("property"@, "og:title"@), decf_title())
    &&& (title matches Some(t) ==> t.wf())
    &&& kind.deep_view() == scalar_val(elems, sel1("property"@, "og:type"@), decf_str(StrRule::Plain))
    &&& url.deep_view() == scalar_val(
        elems,
        sel1("property"@, "og:url"@),
        decf_str(StrRule::UrlKind),
    )
    &&& description.deep_view() == scalar_val(
        elems,
        sel1("property"@, "og:description"@),
        decf_str(StrRule::Plain),
    )
    &&& locale.deep_view() == scalar_val(
        elems,
        sel1("property"@, "og:locale"@),
        decf_str(StrRule::LangKind),
    )
    &&& alternate_locales.deep_view() == list_vals(
        elems,
        sel1("property"@, "og:locale:alternate"@),
        decf_str(StrRule::LangKind),
    )
    &&& site_name.deep_view() == scalar_val(
        elems,
        sel1("property"@, "og:site_name"@),
        decf_str(StrRule::Plain),
    )
}

/// `ogp_core_fields` applied to the fields of `m`.
pub open spec fn ogp_core_fields_of(m: OgpMetadata, elems: Seq<Elem>) -> bool {
    ogp_core_fields(
        m.title,
        m.kind,
        m.url,
        m.description,
        m.locale,
        m.alternate_locales,
        m.site_name,
        elems,
    )
}

/// Which core items a scan of `elems` has satisfied.
#[verifier::opaque]
pub(crate) open spec fn ogp_core_sat(sat: CoreSat, elems: Seq<Elem>) -> bool {
    &&& sat.title == (first_content(elems, sel1("property"@, "og:title"@)) is Some)
    &&& sat.kind == (first_content(elems, sel1("property"@, "og:type"@)) is Some)
    &&& sat.url == (first_content(elems, sel1("property"@, "og:url"@)) is Some)
    &&& sat.description == (first_content(elems, sel1("property"@, "og:description"@)) is Some)
    &&& sat.locale == (first_content(elems, sel1("property"@, "og:locale"@)) is Some)
    &&& sat.site_name == (first_content(elems, sel1("property"@, "og:site_name"@)) is Some)
}

/// The failures the core items report at one element, in registry order.
#[verifier::opaque]
pub open spec fn ogp_core_errs(pre: Seq<Elem>, e: Elem) -> Seq<MetaError> {
    scalar_errs(
        pre,
        e,
        sel1("property"@, "og:title"@),
        okf(decf_title()),
        MetaError::WrongMetadataType,
    ) + scalar_errs(
        pre,
        e,
        sel1("property"@, "og:type"@),
        okf(decf_str(StrRule::Plain)),
        MetaError::WrongMetadataType,
    ) + scalar_errs(
        pre,
        e,
        sel1("property"@, "og:url"@),
        okf(decf_str(StrRule::UrlKind)),
        MetaError::UrlParse,
    ) + scalar_errs(
        pre,
        e,
        sel1("property"@, "og:description"@),
        okf(decf_str(StrRule::Plain)),
        MetaError::WrongMetadataType,
    ) + scalar_errs(
        pre,
        e,
        sel1("property"@, "og:locale"@),
        okf(decf_str(StrRule::LangKind)),
        MetaError::LanguageIdentifier,
    ) + list_errs(
        e,
        sel1("property"@, "og:locale:alternate"@),
        okf(decf_str(StrRule::LangKind)),
        MetaError::LanguageIdentifier,
    ) + scalar_errs(
        pre,
        e,
        sel1("property"@, "og:site_name"@),
        okf(decf_str(StrRule::Plain)),
        MetaError::WrongMetadataType,
    )
}

/// The failures one element contributes across the whole registry:
/// core items first, then the article, audio, book, image, profile and
/// video item sets, each in registry order.
pub open spec fn ogp_elem_errs(pre: Seq<Elem>, e: Elem) -> Seq<MetaError> {
    ogp_core_errs(pre, e) + article_errs(pre, e) + audio_errs(pre, e) + book_errs(pre, e)
        + image_errs(pre, e) + profile_errs(pre, e) + video_errs(pre, e)
}

/// Every failure of a full scan, element-major, items in registry order.
pub open spec fn ogp_errs(elems: Seq<Elem>) -> Seq<MetaError>
    decreases elems.len(),
{
    if elems.len() == 0 {
        Seq::empty()
    } else {
        ogp_errs(elems.drop_last()) + ogp_elem_errs(elems.drop_last(), elems.last())
    }
}

/// The first half of the core registry: title, kind, url.
#[verifier::rlimit(60)]
fn scan_core_head(
    title: &mut Option<Title>,
    kind: &mut Option<String>,
    url: &mut Option<String>,
    sat: &mut CoreSat,
    errors: &mut Errors,
    el: &Elem,
    Ghost(pre): Ghost<Seq<Elem>>,
)
    requires
        old(title).deep_view() == scalar_val(pre, sel1("property"@, "og:title"@), decf_title()),
        (*old(title) matches Some(t) ==> t.wf()),
        old(kind).deep_view() == scalar_val(pre, sel1("property"@, "og:type"@), decf_str(StrRule::Plain)),
        old(url).deep_view() == scalar_val(pre, sel1("property"@, "og:url"@), decf_str(StrRule::UrlKind)),
        old(sat).title == (first_content(pre, sel1("property"@, "og:title"@)) is Some),
        old(sat).kind == (first_content(pre, sel1("property"@, "og:type"@)) is Some),
        old(sat).url == (first_content(pre, sel1("property"@, "og:url"@)) is Some),
    ensures
        final(title).deep_view() == scalar_val(pre.push(*el), sel1("property"@, "og:title"@), decf_title()),
        (*final(title) matches Some(t) ==> t.wf()),
        final(kind).deep_view() == scalar_val(pre.push(*el), sel1("property"@, "og:type"@), decf_str(StrRule::Plain)),
        final(url).deep_view() == scalar_val(pre.push(*el), sel1("property"@, "og:url"@), decf_str(StrRule::UrlKind)),
        final(sat).title == (first_content(pre.push(*el), sel1("property"@, "og:title"@)) is Some),
        final(sat).kind == (first_content(pre.push(*el), sel1("property"@, "og:type"@)) is Some),
        final(sat).url == (first_content(pre.push(*el), sel1("property"@, "og:url"@)) is Some),
        final(sat).description == old(sat).description,
        final(sat).locale == old(sat).locale,
        final(sat).site_name == old(sat).site_name,
        final(errors)@ == old(errors)@ + scalar_errs(
            pre,
            *el,
            sel1("property"@, "og:title"@),
            okf(decf_title()),
            MetaError::WrongMetadataType,
        ) + scalar_errs(
            pre,
            *el,
            sel1("property"@, "og:type"@),
            okf(decf_str(StrRule::Plain)),
            MetaError::WrongMetadataType,
        ) + scalar_errs(
            pre,
            *el,
            sel1("property"@, "og:url"@),
            okf(decf_str(StrRule::UrlKind)),
            MetaError::UrlParse,
        ),
{
    scan_scalar_title(title, &mut sat.title, errors, el, "property", "og:title", Ghost(pre));
    scan_scalar_str(kind, &mut sat.kind, errors, el, "property", "og:type", StrRule::Plain, Ghost(pre));
    scan_scalar_str(url, &mut sat.url, errors, el, "property", "og:url", StrRule::UrlKind, Ghost(pre));
}

/// The second half of the core registry: description, locale, the
/// alternate-locale list and the site name.
#[verifier::rlimit(60)]
fn scan_core_tail(
    description: &mut Option<String>,
    locale: &mut Option<String>,
    alternate_locales: &mut Vec<String>,
    site_name: &mut Option<String>,
    sat: &mut CoreSat,
    errors: &mut Errors,
    el: &Elem,
    Ghost(pre): Ghost<Seq<Elem>>,
)
    requires
        old(description).deep_view() == scalar_val(pre, sel1("property"@, "og:description"@), decf_str(StrRule::Plain)),
        old(locale).deep_view() == scalar_val(pre, sel1("property"@, "og:locale"@), decf_str(StrRule::LangKind)),
        old(alternate_locales).deep_view() == list_vals(pre, sel1("property"@, "og:locale:alternate"@), decf_str(StrRule::LangKind)),
        old(site_name).deep_view() == scalar_val(pre, sel1("property"@, "og:site_name"@), decf_str(StrRule::Plain)),
        old(sat).description == (first_content(pre, sel1("property"@, "og:description"@)) is Some),
        old(sat).locale == (first_content(pre, sel1("property"@, "og:locale"@)) is Some),
        old(sat).site_name == (first_content(pre, sel1("property"@, "og:site_name"@)) is Some),
    ensures
        final(description).deep_view() == scalar_val(pre.push(*el), sel1("property"@, "og:description"@), decf_str(StrRule::Plain)),
        final(locale).deep_view() == scalar_val(pre.push(*el), sel1("property"@, "og:locale"@), decf_str(StrRule::LangKind)),
        final(alternate_locales).deep_view() == list_vals(pre.push(*el), sel1("property"@, "og:locale:alternate"@), decf_str(StrRule::LangKind)),
        final(site_name).deep_view() == scalar_val(pre.push(*el), sel1("property"@, "og:site_name"@), decf_str(StrRule::Plain)),
        final(sat).description == (first_content(pre.push(*el), sel1("property"@, "og:description"@)) is Some),
        final(sat).locale == (first_content(pre.push(*el), sel1("property"@, "og:locale"@)) is Some),
        final(sat).site_name == (first_content(pre.push(*el), sel1("property"@, "og:site_name"@)) is Some),
        final(sat).title == old(sat).title,
        final(sat).kind == old(sat).kind,
        final(sat).url == old(sat).url,
        final(errors)@ == old(errors)@ + scalar_errs(
            pre,
            *el,
            sel1("property"@, "og:description"@),
            okf(decf_str(StrRule::Plain)),
            MetaError::WrongMetadataType,
        ) + scalar_errs(
            pre,
            *el,
            sel1("property"@, "og:locale"@),
            okf(decf_str(StrRule::LangKind)),
            MetaError::LanguageIdentifier,
        ) + list_errs(
            *el,
            sel1("property"@, "og:locale:alternate"@),
            okf(decf_str(StrRule::LangKind)),
            MetaError::LanguageIdentifier,
        ) + scalar_errs(
            pre,
            *el,
            sel1("property"@, "og:site_name"@),
            okf(decf_str(StrRule::Plain)),
            MetaError::WrongMetadataType,
        ),
{
    scan_scalar_str(description, &mut sat.description, errors, el, "property", "og:description", StrRule::Plain, Ghost(pre));
    scan_scalar_str(locale, &mut sat.locale, errors, el, "property", "og:locale", StrRule::LangKind, Ghost(pre));
    scan_list_str(alternate_locales, errors, el, "property", "og:locale:alternate", StrRule::LangKind, Ghost(pre));
    scan_scalar_str(site_name, &mut sat.site_name, errors, el, "property", "og:site_name", StrRule::Plain, Ghost(pre));
}

/// Apply the still-unsatisfied core items to one element, in registry
/// order.
#[verifier::rlimit(100)]
fn scan_core(
    title: &mut Option<Title>,
    kind: &mut Option<String>,
    url: &mut Option<String>,
    description: &mut Option<String>,
    locale: &mut Option<String>,
    alternate_locales: &mut Vec<String>,
    site_name: &mut Option<String>,
    sat: &mut CoreSat,
    errors: &mut Errors,
    el: &Elem,
    Ghost(pre): Ghost<Seq<Elem>>,
)
    requires
        ogp_core_fields(
            *old(title),
            *old(kind),
            *old(url),
            *old(description),
            *old(locale),
            *old(alternate_locales),
            *old(site_name),
            pre,
        ),
        ogp_core_sat(*old(sat), pre),
    ensures
        ogp_core_fields(
            *final(title),
            *final(kind),
            *final(url),
            *final(description),
            *final(locale),
            *final(alternate_locales),
            *final(site_name),
            pre.push(*el),
        ),
        ogp_core_sat(*final(sat), pre.push(*el)),
        final(errors)@ == old(errors)@ + ogp_core_errs(pre, *el),
{
    proof {
        reveal(ogp_core_fields);
        reveal(ogp_core_sat);
        reveal(ogp_core_errs);
    }
    let ghost errs0 = errors@;
    scan_core_head(title, kind, url, sat, errors, el, Ghost(pre));
    scan_core_tail(description, locale, alternate_locales, site_name, sat, errors, el, Ghost(pre));
    assert(errors@ =~= errs0 + ogp_core_errs(pre, *el));
}

impl OgpMetadata {
    /// Scan `elems` once, in document order, applying every still
    /// unsatisfied item of the whole Open Graph registry per element:
    /// scalar fields keep the first successfully fetched value, list
    /// fields accumulate every match, discriminators raise their flag,
    /// and every failure is aggregated without aborting.
    #[verifier::rlimit(100)]
    pub fn extract(elems: &Vec<Elem>) -> (r: (OgpMetadata, Errors))
        ensures
            ogp_core_fields_of(r.0, elems@),
            article_fields(r.0.article, elems@),
            audio_fields(r.0.audio, elems@),
            book_fields(r.0.book, elems@),
            image_fields(r.0.image, elems@),
            profile_fields(r.0.profile, elems@),
            video_fields(r.0.video, elems@),
            r.1@ == ogp_errs(elems@),
    {
        let mut m = OgpMetadata {
            title: None,
            kind: None,
            image: OgpImage {
                url: None,
                secure_url: None,
                mime: None,
                width: None,
                height: None,
                alt: None,
            },
            url: None,
            audio: OgpAudio { url: None, secure_url: None, mime: None },
            description: None,
            locale: None,
            alternate_locales: Vec::new(),
            site_name: None,
            video: OgpVideo {
                url: None,
                secure_url: None,
                mime: None,
                width: None,
                height: None,
                alt: None,
            },
            article: OgpArticle {
                is_article: false,
                published_time: None,
                modified_time: None,
                expiration_time: None,
                authors: Vec::new(),
                section: None,
                tags: Vec::new(),
            },
            book: OgpBook {
                is_book: false,
                authors: Vec::new(),
                isbn: None,
                release_date: None,
                tags: Vec::new(),
            },
            profile: OgpProfile {
                is_profile: false,
                first_name: None,
                last_name: None,
                username: None,
                gender: None,
            },
        };
        let mut errors = Errors::new();
        let mut sat_core = CoreSat {
            title: false,
            kind: false,
            url: false,
            description: false,
            locale: false,
            site_name: false,
        };
        let mut sat_article = ArticleSat {
            expiration: false,
            modified: false,
            published: false,
            section: false,
        };
        let mut sat_audio = AudioSat { mime: false, secure_url: false, url: false };
        let mut sat_book = BookSat { isbn: false, release_date: false };
        let mut sat_image = ImageSat {
            alt: false,
            height: false,
            width: false,
            mime: false,
            secure_url: false,
            url: false,
        };
        let mut sat_profile = ProfileSat {
            first_name: false,
            gender: false,
            last_name: false,
            username: false,
        };
        let mut sat_video = VideoSat {
            alt: false,
            height: false,
            width: false,
            mime: false,
            secure_url: false,
            url: false,
        };
        let n = elems.len();
        let mut j: usize = 0;
        proof {
            reveal(ogp_core_fields);
            reveal(ogp_core_sat);
            reveal(article_fields);
            reveal(article_sat);
            reveal(audio_fields);
            reveal(audio_sat);
            reveal(book_fields);
            reveal(book_sat);
            reveal(image_fields);
            reveal(image_sat);
            reveal(profile_fields);
            reveal(profile_sat);
            reveal(video_fields);
            reveal(video_sat);
            assert(elems@.take(0) =~= Seq::<Elem>::empty());
            assert(m.alternate_locales.deep_view() =~= Seq::<Seq<char>>::empty());
            assert(m.article.authors.deep_view() =~= Seq::<crate::meta::value::name::NameV>::empty());
            assert(m.article.tags.deep_view() =~= Seq::<Seq<char>>::empty());
            assert(m.book.authors.deep_view() =~= Seq::<crate::meta::value::name::NameV>::empty());
            assert(m.book.tags.deep_view() =~= Seq::<Seq<char>>::empty());
        }
        while j < n
            invariant
                j <= n,
                n == elems@.len(),
                ogp_core_fields(
                    m.title,
                    m.kind,
                    m.url,
                    m.description,
                    m.locale,
                    m.alternate_locales,
                    m.site_name,
                    elems@.take(j as int),
                ),
                ogp_core_sat(sat_core, elems@.take(j as int)),
                article_fields(m.article, elems@.take(j as int)),
                article_sat(sat_article, elems@.take(j as int)),
                audio_fields(m.audio, elems@.take(j as int)),
                audio_sat(sat_audio, elems@.take(j as int)),
                book_fields(m.book, elems@.take(j as int)),
                book_sat(sat_book, elems@.take(j as int)),
                image_fields(m.image, elems@.take(j as int)),
                image_sat(sat_image, elems@.take(j as int)),
                profile_fields(m.profile, elems@.take(j as int)),
                profile_sat(sat_profile, elems@.take(j as int)),
                video_fields(m.video, elems@.take(j as int)),
                video_sat(sat_video, elems@.take(j as int)),
                errors@ == ogp_errs(elems@.take(j as int)),
            decreases n - j,
        {
            let ghost pre = elems@.take(j as int);
            let el = &elems[j];
            let ghost errs0 = errors@;
            scan_core(
                &mut m.title,
                &mut m.kind,
                &mut m.url,
                &mut m.description,
                &mut m.locale,
                &mut m.alternate_locales,
                &mut m.site_name,
                &mut sat_core,
                &mut errors,
                el,
                Ghost(pre),
            );
            scan_article(&mut m.article, &mut sat_article, &mut errors, el, Ghost(pre));
            scan_audio(&mut m.audio, &mut sat_audio, &mut errors, el, Ghost(pre));
            scan_book(&mut m.book, &mut sat_book, &mut errors, el, Ghost(pre));
            scan_image(&mut m.image, &mut sat_image, &mut errors, el, Ghost(pre));
            scan_profile(&mut m.profile, &mut sat_profile, &mut errors, el, Ghost(pre));
            scan_video(&mut m.video, &mut sat_video, &mut errors, el, Ghost(pre));
            proof {
                assert(errors@ =~= errs0 + ogp_elem_errs(pre, elems@[j as int]));
                assert(elems@.take(j + 1) =~= pre.push(elems@[j as int]));
                assert(elems@.take(j + 1).drop_last() =~= pre);
            }
            j = j + 1;
        }
        assert(elems@.take(n as int) =~= elems@);
        (m, errors)
    }
}

} // verus!
