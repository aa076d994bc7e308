//! The Open Graph book object: its discriminator, its items and its
//! fields.

use vstd::prelude::*;
use crate::elem::Elem;
use crate::error::Errors;
use crate::error::MetaError;
use crate::meta::item::any_hit;
use crate::meta::item::decf_date;
use crate::meta::item::decf_person;
use crate::meta::item::decf_str;
use crate::meta::item::first_content;
use crate::meta::item::list_errs;
use crate::meta::item::list_vals;
use crate::meta::item::match_prop;
use crate::meta::item::okf;
use crate::meta::item::opt_date_view;
use crate::meta::item::scalar_errs;
use crate::meta::item::scalar_val;
use crate::meta::item::scan_flag;
use crate::meta::item::scan_list_name;
use crate::meta::item::scan_list_str;
use crate::meta::item::scan_scalar_date;
use crate::meta::item::scan_scalar_str;
use crate::meta::item::sel1;
use crate::meta::item::selc;
use crate::meta::item::MetadataItemTarget;
use crate::meta::item::StrRule;
use crate::meta::value::date::DateIso8601;
use crate::meta::value::name::Name;

verus! {

/// The book a document declares itself to be.
#[derive(Debug)]
pub struct OgpBook {
    /// Whether the document declares `og:type=book`.
    pub is_book: bool,
    /// Who wrote this book.
    pub authors: Vec<Name>,
    /// The ISBN, kept as the accepted attribute text.
    pub isbn: Option<String>,
    /// The date the book was released.
    pub release_date: Option<DateIso8601>,
    /// Tag words associated with this book.
    pub tags: Vec<String>,
}

/// The closed set of book items.
#[derive(Debug, Clone, Copy)]
pub enum OgpBookItem {
    Check,
    Author,
    Isbn,
    ReleaseDate,
    Tag,
}

impl OgpBookItem {
    /// Whether this item's selector matches `el`.
    pub fn is_match(&self, el: &Elem) -> (b: bool)
        ensures
            b == match *self {
                OgpBookItem::Check => selc("property"@, "og:type"@, "content"@, "book"@)(*el),
                OgpBookItem::Author => sel1("property"@, "og:book:author"@)(*el),
                OgpBookItem::Isbn => sel1("property"@, "og:book:isbn"@)(*el),
                OgpBookItem::ReleaseDate => sel1("property"@, "og:book:release_date"@)(*el),
                OgpBookItem::Tag => sel1("property"@, "og:book:tag"@)(*el),
            },
    {
        match self {
            OgpBookItem::Check => {
                match_prop(el, "property", "og:type") && el.has_attr_value("content", "book")
            },
            OgpBookItem::Author => match_prop(el, "property", "og:book:author"),
            OgpBookItem::Isbn => match_prop(el, "property", "og:book:isbn"),
            OgpBookItem::ReleaseDate => match_prop(el, "property", "og:book:release_date"),
            OgpBookItem::Tag => match_prop(el, "property", "og:book:tag"),
        }
    }

    /// Where this item reads its value: the discriminator reads nothing.
    pub fn target(&self) -> (t: MetadataItemTarget)
        ensures
            match *self {
                OgpBookItem::Check => t is Presence,
                _ => t matches MetadataItemTarget::Attr(a) && a@ == "content"@,
            },
    {
        match self {
            OgpBookItem::Check => MetadataItemTarget::Presence,
            _ => MetadataItemTarget::Attr("content".to_owned()),
        }
    }
}

/// The satisfied flags of the scalar book items.
pub(crate) struct BookSat {
    pub isbn: bool,
    pub release_date: bool,
}

/// The book fields a scan of `elems` settles on.
#[verifier::opaque]
pub open spec fn book_fields(a: OgpBook, elems: Seq<Elem>) -> bool {
    &&& a.is_book == any_hit(elems, selc("property"@, "og:type"@, "content"@, "book"@))
    &&& a.authors.deep_view() == list_vals(
        elems,
        sel1("property"@, "og:book:author"@),
        decf_person(),
    )
    &&& a.isbn.deep_view() == scalar_val(
        elems,
        sel1("property"@, "og:book:isbn"@),
        decf_str(StrRule::IsbnKind),
    )
    &&& opt_date_view(a.release_date) == scalar_val(
        elems,
        sel1("property"@, "og:book:release_date"@),
        decf_date(),
    )
    &&& a.tags.deep_view() == list_vals(
        elems,
        sel1("property"@, "og:book:tag"@),
        decf_str(StrRule::Plain),
    )
    &&& (a.release_date matches Some(d) ==> d.wf())
}

/// Which book items a scan of `elems` has satisfied.
#[verifier::opaque]
pub(crate) open spec fn book_sat(sat: BookSat, elems: Seq<Elem>) -> bool {
    &&& sat.isbn == (first_content(elems, sel1("property"@, "og:book:isbn"@)) is Some)
    &&& sat.release_date == (first_content(elems, sel1("property"@, "og:book:release_date"@))
        is Some)
}

/// The failures the book items report at one element, in registry order;
/// the discriminator never fails.
#[verifier::opaque]
pub open spec fn book_errs(pre: Seq<Elem>, e: Elem) -> Seq<MetaError> {
    list_errs(e, sel1("property"@, "og:book:author"@), okf(decf_person()), MetaError::NameParse)
        + scalar_errs(
        pre,
        e,
        sel1("property"@, "og:book:isbn"@),
        okf(decf_str(StrRule::IsbnKind)),
        MetaError::Isbn,
    ) + scalar_errs(
        pre,
        e,
        sel1("property"@, "og:book:release_date"@),
        okf(decf_date()),
        MetaError::DateParse,
    ) + list_errs(
        e,
        sel1("property"@, "og:book:tag"@),
        okf(decf_str(StrRule::Plain)),
        MetaError::WrongMetadataType,
    )
}

/// Apply the still-unsatisfied book items to one element, in registry
/// order.
#[verifier::rlimit(60)]
pub(crate) fn scan_book(
    a: &mut OgpBook,
    sat: &mut BookSat,
    errors: &mut Errors,
    el: &Elem,
    Ghost(pre): Ghost<Seq<Elem>>,
)
    requires
        book_fields(*old(a), pre),
        book_sat(*old(sat), pre),
    ensures
        book_fields(*final(a), pre.push(*el)),
        book_sat(*final(sat), pre.push(*el)),
        final(errors)@ == old(errors)@ + book_errs(pre, *el),
{
    proof {
        reveal(book_fields);
        reveal(book_sat);
        reveal(book_errs);
    }
    let ghost errs0 = errors@;
    scan_flag(&mut a.is_book, el, "property", "og:type", "content", "book", Ghost(pre));
    scan_list_name(&mut a.authors, errors, el, "property", "og:book:author", Ghost(pre));
    scan_scalar_str(
        &mut a.isbn,
        &mut sat.isbn,
        errors,
        el,
        "property",
        "og:book:isbn",
        StrRule::IsbnKind,
        Ghost(pre),
    );
    scan_scalar_date(
        &mut a.release_date,
        &mut sat.release_date,
        errors,
        el,
        "property",
        "og:book:release_date",
        Ghost(pre),
    );
    scan_list_str(&mut a.tags, errors, el, "property", "og:book:tag", StrRule::Plain, Ghost(pre));
    assert(errors@ =~= errs0 + book_errs(pre, *el));
}

} // verus!
