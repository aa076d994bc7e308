//! The Open Graph profile object: its items, its fields, and its
//! conversion into a person name.

use vstd::prelude::*;
use crate::elem::Elem;
use crate::error::Errors;
use crate::error::MetaError;
use crate::error::MetaResult;
use crate::meta::item::any_hit;
use crate::meta::item::decf_str;
use crate::meta::item::first_content;
use crate::meta::item::match_prop;
use crate::meta::item::okf;
use crate::meta::item::scalar_errs;
use crate::meta::item::scalar_val;
use crate::meta::item::scan_flag;
use crate::meta::item::scan_scalar_str;
use crate::meta::item::sel1;
use crate::meta::item::selc;
use crate::meta::item::MetadataItemTarget;
use crate::meta::item::StrRule;
use crate::meta::value::name::Name;

verus! {

/// The profile a document declares itself to be.
#[derive(Debug)]
pub struct OgpProfile {
    /// Whether the document declares `og:type=profile`.
    pub is_profile: bool,
    /// A name normally given to an individual by a parent or self-chosen.
    pub first_name: Option<String>,
    /// A name inherited from a family or marriage and by which the
    /// individual is commonly known.
    pub last_name: Option<String>,
    /// A short unique string to identify them.
    pub username: Option<String>,
    /// Their gender.
    pub gender: Option<String>,
}

/// The closed set of profile items.
#[derive(Debug, Clone, Copy)]
pub enum OgpProfileItem {
    Check,
    FirstName,
    LastName,
    Username,
    Gender,
}

impl OgpProfileItem {
    /// Whether this item's selector matches `el`.
    pub fn is_match(&self, el: &Elem) -> (b: bool)
        ensures
            b == match *self {
                OgpProfileItem::Check => selc("property"@, "og:type"@, "content"@, "profile"@)(
                    *el,
                ),
                OgpProfileItem::FirstName => sel1("property"@, "og:profile:first_name"@)(*el),
                OgpProfileItem::LastName => sel1("property"@, "og:profile:last_name"@)(*el),
                OgpProfileItem::Username => sel1("property"@, "og:profile:username"@)(*el),
                OgpProfileItem::Gender => sel1("property"@, "og:profile:gender"@)(*el),
            },
    {
        match self {
            OgpProfileItem::Check => {
                match_prop(el, "property", "og:type") && el.has_attr_value("content", "profile")
            },
            OgpProfileItem::FirstName => match_prop(el, "property", "og:profile:first_name"),
            OgpProfileItem::LastName => match_prop(el, "property", "og:profile:last_name"),
            OgpProfileItem::Username => match_prop(el, "property", "og:profile:username"),
            OgpProfileItem::Gender => match_prop(el, "property", "og:profile:gender"),
        }
    }

    /// Where this item reads its value: the discriminator reads nothing.
    pub fn target(&self) -> (t: MetadataItemTarget)
        ensures
            match *self {
                OgpProfileItem::Check => t is Presence,
                _ => t matches MetadataItemTarget::Attr(a) && a@ == "content"@,
            },
    {
        match self {
            OgpProfileItem::Check => MetadataItemTarget::Presence,
            _ => MetadataItemTarget::Attr("content".to_owned()),
        }
    }
}

/// The satisfied flags of the scalar profile items.
pub(crate) struct ProfileSat {
    pub first_name: bool,
    pub gender: bool,
    pub last_name: bool,
    pub username: bool,
}

/// The profile fields a scan of `elems` settles on.
#[verifier::opaque]
pub open spec fn profile_fields(a: OgpProfile, elems: Seq<Elem>) -> bool {
    &&& a.is_profile == any_hit(elems, selc("property"@, "og:type"@, "content"@, "profile"@))
    &&& a.first_name.deep_view() == scalar_val(
        elems,
        sel1("property"@, "og:profile:first_name"@),
        decf_str(StrRule::Plain),
    )
    &&& a.last_name.deep_view() == scalar_val(
        elems,
        sel1("property"@, "og:profile:last_name"@),
        decf_str(StrRule::Plain),
    )
    &&& a.username.deep_view() == scalar_val(
        elems,
        sel1("property"@, "og:profile:username"@),
        decf_str(StrRule::Plain),
    )
    &&& a.gender.deep_view() == scalar_val(
        elems,
        sel1("property"@, "og:profile:gender"@),
        decf_str(StrRule::Plain),
    )
}

/// Which profile items a scan of `elems` has satisfied.
#[verifier::opaque]
pub(crate) open spec fn profile_sat(sat: ProfileSat, elems: Seq<Elem>) -> bool {
    &&& sat.first_name == (first_content(elems, sel1("property"@, "og:profile:first_name"@))
        is Some)
    &&& sat.gender == (first_content(elems, sel1("property"@, "og:profile:gender"@)) is Some)
    &&& sat.last_name == (first_content(elems, sel1("property"@, "og:profile:last_name"@))
        is Some)
    &&& sat.username == (first_content(elems, sel1("property"@, "og:profile:username"@)) is Some)
}

/// The failures the profile items report at one element, in registry
/// order.
#[verifier::opaque]
pub open spec fn profile_errs(pre: Seq<Elem>, e: Elem) -> Seq<MetaError> {
    scalar_errs(
        pre,
        e,
        sel1("property"@, "og:profile:first_name"@),
        okf(decf_str(StrRule::Plain)),
        MetaError::WrongMetadataType,
    ) + scalar_errs(
        pre,
        e,
        sel1("property"@, "og:profile:gender"@),
        okf(decf_str(StrRule::Plain)),
        MetaError::WrongMetadataType,
    ) + scalar_errs(
        pre,
        e,
        sel1("property"@, "og:profile:last_name"@),
        okf(decf_str(StrRule::Plain)),
        MetaError::WrongMetadataType,
    ) + scalar_errs(
        pre,
        e,
        sel1("property"@, "og:profile:username"@),
        okf(decf_str(StrRule::Plain)),
        MetaError::WrongMetadataType,
    )
}

/// Apply the still-unsatisfied profile items to one element, in registry
/// order.
#[verifier::rlimit(60)]
pub(crate) fn scan_profile(
    a: &mut OgpProfile,
    sat: &mut ProfileSat,
    errors: &mut Errors,
    el: &Elem,
    Ghost(pre): Ghost<Seq<Elem>>,
)
    requires
        profile_fields(*old(a), pre),
        profile_sat(*old(sat), pre),
    ensures
        profile_fields(*final(a), pre.push(*el)),
        profile_sat(*final(sat), pre.push(*el)),
        final(errors)@ == old(errors)@ + profile_errs(pre, *el),
{
    proof {
        reveal(profile_fields);
        reveal(profile_sat);
        reveal(profile_errs);
    }
    let ghost errs0 = errors@;
    scan_flag(&mut a.is_profile, el, "property", "og:type", "content", "profile", Ghost(pre));
    scan_scalar_str(
        &mut a.first_name,
        &mut sat.first_name,
        errors,
        el,
        "property",
        "og:profile:first_name",
        StrRule::Plain,
        Ghost(pre),
    );
    scan_scalar_str(
        &mut a.gender,
        &mut sat.gender,
        errors,
        el,
        "property",
        "og:profile:gender",
        StrRule::Plain,
        Ghost(pre),
    );
    scan_scalar_str(
        &mut a.last_name,
        &mut sat.last_name,
        errors,
        el,
        "property",
        "og:profile:last_name",
        StrRule::Plain,
        Ghost(pre),
    );
    scan_scalar_str(
        &mut a.username,
        &mut sat.username,
        errors,
        el,
        "property",
        "og:profile:username",
        StrRule::Plain,
        Ghost(pre),
    );
    assert(errors@ =~= errs0 + profile_errs(pre, *el));
}

impl OgpProfile {
    /// Turn a profile into a person name: the last name becomes the
    /// surname, the first name the given name and the username the alias;
    /// without a last name no person can be assembled.
    pub fn into_name(self) -> (r: MetaResult<Name>)
        ensures
            (r is Ok) == (self.last_name is Some),
            r matches Ok(n) ==> {
                &&& Some(n.surname) == self.last_name
                &&& n.given_name == self.first_name
                &&& n.alias == self.username
                &&& n.prefix is None
                &&& n.suffix is None
            },
            r matches Err(e) ==> e == MetaError::MissingMetadata,
    {
        match self.last_name {
            Some(surname) => Ok(
                Name {
                    surname,
                    given_name: self.first_name,
                    alias: self.username,
                    prefix: None,
                    suffix: None,
                },
            ),
            None => Err(MetaError::MissingMetadata),
        }
    }
}

} // verus!
