//! The Open Graph audio object: its items and its fields.

use vstd::prelude::*;
use crate::elem::Elem;
use crate::error::Errors;
use crate::error::MetaError;
use crate::meta::item::decf_str;
use crate::meta::item::first_content;
use crate::meta::item::okf;
use crate::meta::item::scalar_errs;
use crate::meta::item::scalar_val;
use crate::meta::item::scan_scalar_str;
use crate::meta::item::sel1;
use crate::meta::item::MetadataItemTarget;
use crate::meta::item::StrRule;

verus! {

/// The audio accompanying an object.
#[derive(Debug)]
pub struct OgpAudio {
    /// A URL to an audio file to accompany this object.
    pub url: Option<String>,
    /// An alternate url to use if the webpage requires HTTPS.
    pub secure_url: Option<String>,
    /// A MIME type for this audio.
    pub mime: Option<String>,
}

/// The closed set of audio items.
#[derive(Debug, Clone, Copy)]
pub enum OgpAudioItem {
    Url,
    SecureUrl,
    Mime,
}

impl OgpAudioItem {
    /// Whether this item's selector matches `el`.
    pub fn is_match(&self, el: &Elem) -> (b: bool)
        ensures
            b == match *self {
                OgpAudioItem::Url => sel1("property"@, "og:audio"@)(*el),
                OgpAudioItem::SecureUrl => sel1("property"@, "og:audio:secure_url"@)(*el),
                OgpAudioItem::Mime => sel1("property"@, "og:audio:type"@)(*el),
            },
    {
        match self {
            OgpAudioItem::Url => crate::meta::item::match_prop(el, "property", "og:audio"),
            OgpAudioItem::SecureUrl => crate::meta::item::match_prop(
                el,
                "property",
                "og:audio:secure_url",
            ),
            OgpAudioItem::Mime => crate::meta::item::match_prop(el, "property", "og:audio:type"),
        }
    }

    /// Every audio item reads the `content` attribute.
    pub fn target(&self) -> (t: MetadataItemTarget)
        ensures
            t matches MetadataItemTarget::Attr(a) && a@ == "content"@,
    {
        MetadataItemTarget::Attr("content".to_owned())
    }
}

/// The satisfied flags of the scalar audio items.
pub(crate) struct AudioSat {
    pub mime: bool,
    pub secure_url: bool,
    pub url: bool,
}

/// The audio fields a scan of `elems` settles on.
#[verifier::opaque]
pub open spec fn audio_fields(a: OgpAudio, elems: Seq<Elem>) -> bool {
    &&& a.url.deep_view() == scalar_val(elems, sel1("property"@, "og:audio"@), decf_str(StrRule::UrlKind))
    &&& a.secure_url.deep_view() == scalar_val(
        elems,
        sel1("property"@, "og:audio:secure_url"@),
        decf_str(StrRule::UrlKind),
    )
    &&& a.mime.deep_view() == scalar_val(
        elems,
        sel1("property"@, "og:audio:type"@),
        decf_str(StrRule::MimeKind),
    )
}

/// Which audio items a scan of `elems` has satisfied.
#[verifier::opaque]
pub(crate) open spec fn audio_sat(sat: AudioSat, elems: Seq<Elem>) -> bool {
    &&& sat.mime == (first_content(elems, sel1("property"@, "og:audio:type"@)) is Some)
    &&& sat.secure_url == (first_content(elems, sel1("property"@, "og:audio:secure_url"@))
        is Some)
    &&& sat.url == (first_content(elems, sel1("property"@, "og:audio"@)) is Some)
}

/// The failures the audio items report at one element, in registry order.
#[verifier::opaque]
pub open spec fn audio_errs(pre: Seq<Elem>, e: Elem) -> Seq<MetaError> {
    scalar_errs(
        pre,
        e,
        sel1("property"@, "og:audio:type"@),
        okf(decf_str(StrRule::MimeKind)),
        MetaError::MimeFromStr,
    ) + scalar_errs(
        pre,
        e,
        sel1("property"@, "og:audio:secure_url"@),
        okf(decf_str(StrRule::UrlKind)),
        MetaError::UrlParse,
    ) + scalar_errs(
        pre,
        e,
        sel1("property"@, "og:audio"@),
        okf(decf_str(StrRule::UrlKind)),
        MetaError::UrlParse,
    )
}

/// Apply the still-unsatisfied audio items to one element.
pub(crate) fn scan_audio(
    a: &mut OgpAudio,
    sat: &mut AudioSat,
    errors: &mut Errors,
    el: &Elem,
    Ghost(pre): Ghost<Seq<Elem>>,
)
    requires
        audio_fields(*old(a), pre),
        audio_sat(*old(sat), pre),
    ensures
        audio_fields(*final(a), pre.push(*el)),
        audio_sat(*final(sat), pre.push(*el)),
        final(errors)@ == old(errors)@ + audio_errs(pre, *el),
{
    proof {
        reveal(audio_fields);
        reveal(audio_sat);
        reveal(audio_errs);
    }
    let ghost errs0 = errors@;
    scan_scalar_str(
        &mut a.mime,
        &mut sat.mime,
        errors,
        el,
        "property",
        "og:audio:type",
        StrRule::MimeKind,
        Ghost(pre),
    );
    scan_scalar_str(
        &mut a.secure_url,
        &mut sat.secure_url,
        errors,
        el,
        "property",
        "og:audio:secure_url",
        StrRule::UrlKind,
        Ghost(pre),
    );
    scan_scalar_str(
        &mut a.url,
        &mut sat.url,
        errors,
        el,
        "property",
        "og:audio",
        StrRule::UrlKind,
        Ghost(pre),
    );
    assert(errors@ =~= errs0 + audio_errs(pre, *el));
}

} // verus!
