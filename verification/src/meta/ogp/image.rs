//! The Open Graph image object: its items and its fields.

use vstd::prelude::*;
use crate::elem::Elem;
use crate::error::Errors;
use crate::error::MetaError;
use crate::meta::item::decf_str;
use crate::meta::item::decf_u32;
use crate::meta::item::first_content;
use crate::meta::item::match_prop;
use crate::meta::item::okf;
use crate::meta::item::opt_u32_view;
use crate::meta::item::scalar_errs;
use crate::meta::item::scalar_val;
use crate::meta::item::scan_scalar_str;
use crate::meta::item::scan_scalar_u32;
use crate::meta::item::sel1;
use crate::meta::item::MetadataItemTarget;
use crate::meta::item::StrRule;

verus! {

/// The image representing an object.
#[derive(Debug)]
pub struct OgpImage {
    /// An image URL which should represent the object.
    pub url: Option<String>,
    /// An alternate url to use if the webpage requires HTTPS.
    pub secure_url: Option<String>,
    /// A MIME type for this image.
    pub mime: Option<String>,
    /// The number of pixels wide.
    pub width: Option<u32>,
    /// The number of pixels high.
    pub height: Option<u32>,
    /// A description of what is in the image.
    pub alt: Option<String>,
}

/// The closed set of image items.
#[derive(Debug, Clone, Copy)]
pub enum OgpImageItem {
    Url,
    SecureUrl,
    Mime,
    Width,
    Height,
    Alt,
}

impl OgpImageItem {
    /// Whether this item's selector matches `el`.
    pub fn is_match(&self, el: &Elem) -> (b: bool)
        ensures
            b == match *self {
                OgpImageItem::Url => sel1("property"@, "og:image"@)(*el),
                OgpImageItem::SecureUrl => sel1("property"@, "og:image:secure_url"@)(*el),
                OgpImageItem::Mime => sel1("property"@, "og:image:type"@)(*el),
                OgpImageItem::Width => sel1("property"@, "og:image:width"@)(*el),
                OgpImageItem::Height => sel1("property"@, "og:image:height"@)(*el),
                OgpImageItem::Alt => sel1("property"@, "og:image:alt"@)(*el),
            },
    {
        match self {
            OgpImageItem::Url => match_prop(el, "property", "og:image"),
            OgpImageItem::SecureUrl => match_prop(el, "property", "og:image:secure_url"),
            OgpImageItem::Mime => match_prop(el, "property", "og:image:type"),
            OgpImageItem::Width => match_prop(el, "property", "og:image:width"),
            OgpImageItem::Height => match_prop(el, "property", "og:image:height"),
            OgpImageItem::Alt => match_prop(el, "property", "og:image:alt"),
        }
    }

    /// Every image item reads the `content` attribute.
    pub fn target(&self) -> (t: MetadataItemTarget)
        ensures
            t matches MetadataItemTarget::Attr(a) && a@ == "content"@,
    {
        MetadataItemTarget::Attr("content".to_owned())
    }
}

/// The satisfied flags of the scalar image items.
pub(crate) struct ImageSat {
    pub alt: bool,
    pub height: bool,
    pub width: bool,
    pub mime: bool,
    pub secure_url: bool,
    pub url: bool,
}

/// The image fields a scan of `elems` settles on.
#[verifier::opaque]
pub open spec fn image_fields(a: OgpImage, elems: Seq<Elem>) -> bool {
    &&& a.url.deep_view() == scalar_val(elems, sel1("property"@, "og:image"@), decf_str(StrRule::UrlKind))
    &&& a.secure_url.deep_view() == scalar_val(
        elems,
        sel1("property"@, "og:image:secure_url"@),
        decf_str(StrRule::UrlKind),
    )
    &&& a.mime.deep_view() == scalar_val(
        elems,
        sel1("property"@, "og:image:type"@),
        decf_str(StrRule::MimeKind),
    )
    &&& opt_u32_view(a.width) == scalar_val(elems, sel1("property"@, "og:image:width"@), decf_u32())
    &&& opt_u32_view(a.height) == scalar_val(
        elems,
        sel1("property"@, "og:image:height"@),
        decf_u32(),
    )
    &&& a.alt.deep_view() == scalar_val(
        elems,
        sel1("property"@, "og:image:alt"@),
        decf_str(StrRule::Plain),
    )
}

/// Which image items a scan of `elems` has satisfied.
#[verifier::opaque]
pub(crate) open spec fn image_sat(sat: ImageSat, elems: Seq<Elem>) -> bool {
    &&& sat.alt == (first_content(elems, sel1("property"@, "og:image:alt"@)) is Some)
    &&& sat.height == (first_content(elems, sel1("property"@, "og:image:height"@)) is Some)
    &&& sat.width == (first_content(elems, sel1("property"@, "og:image:width"@)) is Some)
    &&& sat.mime == (first_content(elems, sel1("property"@, "og:image:type"@)) is Some)
    &&& sat.secure_url == (first_content(elems, sel1("property"@, "og:image:secure_url"@))
        is Some)
    &&& sat.url == (first_content(elems, sel1("property"@, "og:image"@)) is Some)
}

/// The failures the image items report at one element, in registry order.
#[verifier::opaque]
pub open spec fn image_errs(pre: Seq<Elem>, e: Elem) -> Seq<MetaError> {
    scalar_errs(
        pre,
        e,
        sel1("property"@, "og:image:alt"@),
        okf(decf_str(StrRule::Plain)),
        MetaError::WrongMetadataType,
    ) + scalar_errs(
        pre,
        e,
        sel1("property"@, "og:image:height"@),
        okf(decf_u32()),
        MetaError::IntParse,
    ) + scalar_errs(
        pre,
        e,
        sel1("property"@, "og:image:width"@),
        okf(decf_u32()),
        MetaError::IntParse,
    ) + scalar_errs(
        pre,
        e,
        sel1("property"@, "og:image:type"@),
        okf(decf_str(StrRule::MimeKind)),
        MetaError::MimeFromStr,
    ) + scalar_errs(
        pre,
        e,
        sel1("property"@, "og:image:secure_url"@),
        okf(decf_str(StrRule::UrlKind)),
        MetaError::UrlParse,
    ) + scalar_errs(
        pre,
        e,
        sel1("property"@, "og:image"@),
        okf(decf_str(StrRule::UrlKind)),
        MetaError::UrlParse,
    )
}

/// Apply the still-unsatisfied image items to one element.
#[verifier::rlimit(60)]
pub(crate) fn scan_image(
    a: &mut OgpImage,
    sat: &mut ImageSat,
    errors: &mut Errors,
    el: &Elem,
    Ghost(pre): Ghost<Seq<Elem>>,
)
    requires
        image_fields(*old(a), pre),
        image_sat(*old(sat), pre),
    ensures
        image_fields(*final(a), pre.push(*el)),
        image_sat(*final(sat), pre.push(*el)),
        final(errors)@ == old(errors)@ + image_errs(pre, *el),
{
    proof {
        reveal(image_fields);
        reveal(image_sat);
        reveal(image_errs);
    }
    let ghost errs0 = errors@;
    scan_scalar_str(
        &mut a.alt,
        &mut sat.alt,
        errors,
        el,
        "property",
        "og:image:alt",
        StrRule::Plain,
        Ghost(pre),
    );
    scan_scalar_u32(
        &mut a.height,
        &mut sat.height,
        errors,
        el,
        "property",
        "og:image:height",
        Ghost(pre),
    );
    scan_scalar_u32(
        &mut a.width,
        &mut sat.width,
        errors,
        el,
        "property",
        "og:image:width",
        Ghost(pre),
    );
    scan_scalar_str(
        &mut a.mime,
        &mut sat.mime,
        errors,
        el,
        "property",
        "og:image:type",
        StrRule::MimeKind,
        Ghost(pre),
    );
    scan_scalar_str(
        &mut a.secure_url,
        &mut sat.secure_url,
        errors,
        el,
        "property",
        "og:image:secure_url",
        StrRule::UrlKind,
        Ghost(pre),
    );
    scan_scalar_str(
        &mut a.url,
        &mut sat.url,
        errors,
        el,
        "property",
        "og:image",
        StrRule::UrlKind,
        Ghost(pre),
    );
    assert(errors@ =~= errs0 + image_errs(pre, *el));
}

} // verus!
