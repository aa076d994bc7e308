//! The Open Graph video object: its items and its fields.

use vstd::prelude::*;
use crate::elem::Elem;
use crate::error::Errors;
use crate::error::MetaError;
use crate::meta::item::decf_str;
use crate::meta::item::decf_u32;
use crate::meta::item::first_content;
use crate::meta::item::match_prop;
use crate::meta::item::okf;
use crate::meta::item::opt_u32_view;
use crate::meta::item::scalar_errs;
use crate::meta::item::scalar_val;
use crate::meta::item::scan_scalar_str;
use crate::meta::item::scan_scalar_u32;
use crate::meta::item::sel1;
use crate::meta::item::MetadataItemTarget;
use crate::meta::item::StrRule;

verus! {

/// The video representing an object.
#[derive(Debug)]
pub struct OgpVideo {
    /// An video URL which should represent the object.
    pub url: Option<String>,
    /// An alternate url to use if the webpage requires HTTPS.
    pub secure_url: Option<String>,
    /// A MIME type for this video.
    pub mime: Option<String>,
    /// The number of pixels wide.
    pub width: Option<u32>,
    /// The number of pixels high.
    pub height: Option<u32>,
    /// A description of what is in the video.
    pub alt: Option<String>,
}

/// The closed set of video items.
#[derive(Debug, Clone, Copy)]
pub enum OgpVideoItem {
    Url,
    SecureUrl,
    Mime,
    Width,
    Height,
    Alt,
}

impl OgpVideoItem {
    /// Whether this item's selector matches `el`.
    pub fn is_match(&self, el: &Elem) -> (b: bool)
        ensures
            b == match *self {
                OgpVideoItem::Url => sel1("property"@, "og:video"@)(*el),
                OgpVideoItem::SecureUrl => sel1("property"@, "og:video:secure_url"@)(*el),
                OgpVideoItem::Mime => sel1("property"@, "og:video:type"@)(*el),
                OgpVideoItem::Width => sel1("property"@, "og:video:width"@)(*el),
                OgpVideoItem::Height => sel1("property"@, "og:video:height"@)(*el),
                OgpVideoItem::Alt => sel1("property"@, "og:video:alt"@)(*el),
            },
    {
        match self {
            OgpVideoItem::Url => match_prop(el, "property", "og:video"),
            OgpVideoItem::SecureUrl => match_prop(el, "property", "og:video:secure_url"),
            OgpVideoItem::Mime => match_prop(el, "property", "og:video:type"),
            OgpVideoItem::Width => match_prop(el, "property", "og:video:width"),
            OgpVideoItem::Height => match_prop(el, "property", "og:video:height"),
            OgpVideoItem::Alt => match_prop(el, "property", "og:video:alt"),
        }
    }

    /// Every video item reads the `content` attribute.
    pub fn target(&self) -> (t: MetadataItemTarget)
        ensures
            t matches MetadataItemTarget::Attr(a) && a@ == "content"@,
    {
        MetadataItemTarget::Attr("content".to_owned())
    }
}

/// The satisfied flags of the scalar video items.
pub(crate) struct VideoSat {
    pub alt: bool,
    pub height: bool,
    pub width: bool,
    pub mime: bool,
    pub secure_url: bool,
    pub url: bool,
}

/// The video fields a scan of `elems` settles on.
#[verifier::opaque]
pub open spec fn video_fields(a: OgpVideo, elems: Seq<Elem>) -> bool {
    &&& a.url.deep_view() == scalar_val(elems, sel1("property"@, "og:video"@), decf_str(StrRule::UrlKind))
    &&& a.secure_url.deep_view() == scalar_val(
        elems,
        sel1("property"@, "og:video:secure_url"@),
        decf_str(StrRule::UrlKind),
    )
    &&& a.mime.deep_view() == scalar_val(
        elems,
        sel1("property"@, "og:video:type"@),
        decf_str(StrRule::MimeKind),
    )
    &&& opt_u32_view(a.width) == scalar_val(elems, sel1("property"@, "og:video:width"@), decf_u32())
    &&& opt_u32_view(a.height) == scalar_val(
        elems,
        sel1("property"@, "og:video:height"@),
        decf_u32(),
    )
    &&& a.alt.deep_view() == scalar_val(
        elems,
        sel1("property"@, "og:video:alt"@),
        decf_str(StrRule::Plain),
    )
}

/// Which video items a scan of `elems` has satisfied.
#[verifier::opaque]
pub(crate) open spec fn video_sat(sat: VideoSat, elems: Seq<Elem>) -> bool {
    &&& sat.alt == (first_content(elems, sel1("property"@, "og:video:alt"@)) is Some)
    &&& sat.height == (first_content(elems, sel1("property"@, "og:video:height"@)) is Some)
    &&& sat.width == (first_content(elems, sel1("property"@, "og:video:width"@)) is Some)
    &&& sat.mime == (first_content(elems, sel1("property"@, "og:video:type"@)) is Some)
    &&& sat.secure_url == (first_content(elems, sel1("property"@, "og:video:secure_url"@))
        is Some)
    &&& sat.url == (first_content(elems, sel1("property"@, "og:video"@)) is Some)
}

/// The failures the video items report at one element, in registry order.
#[verifier::opaque]
pub open spec fn video_errs(pre: Seq<Elem>, e: Elem) -> Seq<MetaError> {
    scalar_errs(
        pre,
        e,
        sel1("property"@, "og:video:alt"@),
        okf(decf_str(StrRule::Plain)),
        MetaError::WrongMetadataType,
    ) + scalar_errs(
        pre,
        e,
        sel1("property"@, "og:video:height"@),
        okf(decf_u32()),
        MetaError::IntParse,
    ) + scalar_errs(
        pre,
        e,
        sel1("property"@, "og:video:width"@),
        okf(decf_u32()),
        MetaError::IntParse,
    ) + scalar_errs(
        pre,
        e,
        sel1("property"@, "og:video:type"@),
        okf(decf_str(StrRule::MimeKind)),
        MetaError::MimeFromStr,
    ) + scalar_errs(
        pre,
        e,
        sel1("property"@, "og:video:secure_url"@),
        okf(decf_str(StrRule::UrlKind)),
        MetaError::UrlParse,
    ) + scalar_errs(
        pre,
        e,
        sel1("property"@, "og:video"@),
        okf(decf_str(StrRule::UrlKind)),
        MetaError::UrlParse,
    )
}

/// Apply the still-unsatisfied video items to one element.
#[verifier::rlimit(60)]
pub(crate) fn scan_video(
    a: &mut OgpVideo,
    sat: &mut VideoSat,
    errors: &mut Errors,
    el: &Elem,
    Ghost(pre): Ghost<Seq<Elem>>,
)
    requires
        video_fields(*old(a), pre),
        video_sat(*old(sat), pre),
    ensures
        video_fields(*final(a), pre.push(*el)),
        video_sat(*final(sat), pre.push(*el)),
        final(errors)@ == old(errors)@ + video_errs(pre, *el),
{
    proof {
        reveal(video_fields);
        reveal(video_sat);
        reveal(video_errs);
    }
    let ghost errs0 = errors@;
    scan_scalar_str(
        &mut a.alt,
        &mut sat.alt,
        errors,
        el,
        "property",
        "og:video:alt",
        StrRule::Plain,
        Ghost(pre),
    );
    scan_scalar_u32(
        &mut a.height,
        &mut sat.height,
        errors,
        el,
        "property",
        "og:video:height",
        Ghost(pre),
    );
    scan_scalar_u32(
        &mut a.width,
        &mut sat.width,
        errors,
        el,
        "property",
        "og:video:width",
        Ghost(pre),
    );
    scan_scalar_str(
        &mut a.mime,
        &mut sat.mime,
        errors,
        el,
        "property",
        "og:video:type",
        StrRule::MimeKind,
        Ghost(pre),
    );
    scan_scalar_str(
        &mut a.secure_url,
        &mut sat.secure_url,
        errors,
        el,
        "property",
        "og:video:secure_url",
        StrRule::UrlKind,
        Ghost(pre),
    );
    scan_scalar_str(
        &mut a.url,
        &mut sat.url,
        errors,
        el,
        "property",
        "og:video",
        StrRule::UrlKind,
        Ghost(pre),
    );
    assert(errors@ =~= errs0 + video_errs(pre, *el));
}

} // verus!
