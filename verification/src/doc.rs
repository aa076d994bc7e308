//! The parsed document: the DOM layer is consulted once, up front, for
//! the meta elements, the first heading text and the base address; all
//! extraction after that is a pure function of what was captured.

use vstd::prelude::*;
use crate::citation::Citation;
use crate::elem::Elem;
use crate::error::Errors;
use crate::error::MetaError;
use crate::error::MetaResult;
use crate::meta::generic::GenericMetadata;
use crate::meta::ogp::OgpMetadata;
use crate::meta::value::parse_url;
use crate::meta::value::title::ascii_fold;
use crate::meta::value::title::Title;
use crate::meta::value::url_normalized;
use crate::query::key_of;
use crate::query::HtmlQueryReport;
use crate::citation::citation_matches;
use crate::citation::EntryType;

verus! {

/// The DOM layer's document tree, carried opaquely.
#[verifier::external_type_specification]
#[verifier::external_body]
pub struct ExHtml(scraper::Html);

/// Relies on `scraper::Html::parse_document`: any input yields a
/// document tree.
#[verifier::external_body]
fn parse_html(raw: &str) -> scraper::Html {
    scraper::Html::parse_document(raw)
}

/// Relies on `scraper`'s `Selector::parse("meta")` and `Html::select`:
/// the matches of the `meta` selector are `meta` elements, handed back
/// in document order, each with its attributes (unique by name; the DOM
/// layer keeps the first occurrence of a duplicated attribute).
#[verifier::external_body]
fn select_meta(html: &scraper::Html) -> (r: Vec<Elem>)
    ensures
        forall|i: int| 0 <= i < r@.len() ==> (#[trigger] r@[i]).name@ == "meta"@,
{
    let mut out = Vec::new();
    let sel = match scraper::Selector::parse("meta") {
        Ok(s) => s,
        Err(_) => return out,
    };
    for el in html.select(&sel) {
        let v = el.value();
        let attrs = v.attrs().map(|(k, val)| (k.to_owned(), val.to_owned())).collect();
        out.push(Elem { name: v.name().to_owned(), attrs });
    }
    out
}

/// Relies on `scraper`'s `Selector::parse("h1")`, `Html::select` and
/// `ElementRef::text`: the first text node under the first `h1`
/// element, if the document has one.
#[verifier::external_body]
fn first_h1_text(html: &scraper::Html) -> Option<String> {
    let sel = scraper::Selector::parse("h1").ok()?;
    let el = html.select(&sel).next()?;
    let t = el.text().next()?;
    Some(t.to_owned())
}

/// One document, reduced to what extraction reads: its `meta` elements
/// in document order, its first heading text, and its own address in
/// normalized form.
#[derive(Debug)]
pub struct Document {
    pub elems: Vec<Elem>,
    pub heading: Option<String>,
    pub url: String,
}

impl Document {
    /// Parse raw markup and the document's address. Parsing markup never
    /// fails; a malformed address is rejected.
    pub fn parse(raw: &str, url: &str) -> (r: MetaResult<Document>)
        ensures
            (r is Ok) == (url_normalized(url@) is Some),
            r matches Ok(d) ==> url_normalized(url@) == Some(d.url@),
            r matches Err(e) ==> e == MetaError::UrlParse,
    {
        let html = parse_html(raw);
        match parse_url(url) {
            Some(u) => Ok(
                Document { elems: select_meta(&html), heading: first_h1_text(&html), url: u },
            ),
            None => Err(MetaError::UrlParse),
        }
    }

    /// The document's own address, normalized.
    pub fn url(&self) -> (r: &String)
        ensures
            r == self.url,
    {
        &self.url
    }

    /// Scan the meta elements for the generic vocabulary.
    pub fn generic_metadata(&self) -> (r: (GenericMetadata, Errors))
        ensures
            crate::meta::generic::spec_gen_title(self.elems@) == r.0.title.deep_view(),
            r.0.title matches Some(t) ==> t.wf(),
            crate::meta::generic::spec_gen_content_type(self.elems@) == r.0.content_type.deep_view(),
            crate::meta::generic::spec_gen_description(self.elems@) == r.0.description.deep_view(),
            crate::meta::generic::spec_gen_keywords(self.elems@) == r.0.keywords.deep_view(),
            crate::meta::generic::spec_gen_language(self.elems@) == r.0.language.deep_view(),
            crate::meta::generic::spec_gen_author(self.elems@) == r.0.author.deep_view(),
            r.1@ == crate::meta::generic::gen_errs(self.elems@),
    {
        GenericMetadata::extract(&self.elems)
    }

    /// Scan the meta elements for the Open Graph vocabulary.
    pub fn ogp_metadata(&self) -> (r: (OgpMetadata, Errors))
        ensures
            crate::meta::ogp::ogp_core_fields_of(r.0, self.elems@),
            crate::meta::ogp::article::article_fields(r.0.article, self.elems@),
            crate::meta::ogp::audio::audio_fields(r.0.audio, self.elems@),
            crate::meta::ogp::book::book_fields(r.0.book, self.elems@),
            crate::meta::ogp::image::image_fields(r.0.image, self.elems@),
            crate::meta::ogp::profile::profile_fields(r.0.profile, self.elems@),
            crate::meta::ogp::video::video_fields(r.0.video, self.elems@),
            r.1@ == crate::meta::ogp::ogp_errs(self.elems@),
    {
        OgpMetadata::extract(&self.elems)
    }

    /// The heading-derived query report.
    pub fn html_query_report(&self) -> (r: HtmlQueryReport)
        ensures
            r.title.deep_view() == match self.heading {
                Some(h) => Some(ascii_fold(h@)),
                None => None,
            },
            r.title matches Some(t) ==> t.wf(),
    {
        HtmlQueryReport::from(self)
    }

    /// The heading-derived title, normalized; absent when the document
    /// has no heading.
    pub fn find_title(&self) -> (r: MetaResult<Title>)
        ensures
            (r is Ok) == (self.heading is Some),
            r matches Ok(t) ==> Some(t@) == (match self.heading {
                Some(h) => Some(ascii_fold(h@)),
                None => None::<Seq<char>>,
            }),
            r matches Err(e) ==> e == MetaError::TitleNotFound,
    {
        match &self.heading {
            Some(h) => Ok(Title::new(h.as_str())),
            None => Err(MetaError::TitleNotFound),
        }
    }

    /// The citation key derived from the heading title alone.
    pub fn find_key(&self) -> (r: MetaResult<String>)
        ensures
            (r is Ok) == (self.heading is Some),
            r matches Ok(k) ==> Some(k@) == (match self.heading {
                Some(h) => Some(key_of(ascii_fold(h@))),
                None => None::<Seq<char>>,
            }),
            r matches Err(e) ==> e == MetaError::TitleNotFound,
    {
        match self.find_title() {
            Ok(t) => Ok(crate::query::calculate_key(t.canonical.as_str())),
            Err(e) => Err(e),
        }
    }

    /// The entry type the heading heuristics settle on: always `Web`.
    pub fn find_entry_type(&self) -> (r: MetaResult<EntryType>)
        ensures
            r matches Ok(t) && t == EntryType::Web,
    {
        Ok(EntryType::Web)
    }

    /// The full pipeline: scan both vocabularies and the heading report,
    /// merge them by authority, and assemble the citation record, along
    /// with every failure either scan aggregated.
    pub fn citation_entry(&self) -> (r: (Citation, Errors))
        ensures
            citation_matches(r.0, *self),
            r.1@ == crate::meta::generic::gen_errs(self.elems@) + crate::meta::ogp::ogp_errs(
                self.elems@,
            ),
    {
        Citation::new(self)
    }
}

} // verus!
