//! Citation assembly: folds the merged fields into an entry-type-tagged
//! record, upgrading the entry type by fixed, last-rule-wins transitions,
//! and deriving the citation key from the highest-priority title.

use vstd::prelude::*;
use crate::doc::Document;
use crate::elem::Elem;
use crate::error::Errors;
use crate::meta::generic::spec_gen_author;
use crate::meta::generic::spec_gen_language;
use crate::meta::generic::spec_gen_title;
use crate::meta::generic::GenericMetadata;
use crate::meta::item::any_hit;
use crate::meta::item::decf_person;
use crate::meta::item::decf_str;
use crate::meta::item::decf_title;
use crate::meta::item::list_vals;
use crate::meta::item::scalar_val;
use crate::meta::item::sel1;
use crate::meta::item::selc;
use crate::meta::item::StrRule;
use crate::meta::ogp::article::article_fields;
use crate::meta::ogp::book::book_fields;
use crate::meta::ogp::ogp_core_fields;
use crate::meta::ogp::video::video_fields;
use crate::meta::ogp::OgpMetadata;
use crate::meta::value::date::DateIso8601;
use crate::meta::value::name::Name;
use crate::meta::value::name::NameV;
use crate::meta::value::title::ascii_fold;
use crate::meta::value::title::Title;
use crate::priority::PriorityData;
use crate::query::calculate_key;
use crate::query::spec_derived_key;
use crate::query::HtmlQueryReport;

verus! {

/// The citation kind inferred from which vocabularies fired.
#[derive(Debug, Clone, Copy, PartialEq, Eq, Structural)]
pub enum EntryType {
    Web,
    Video,
    Article,
    Book,
}

/// The assembled citation record. Entry type and key always have a
/// value; every other field is optional.
#[derive(Debug)]
pub struct Citation {
    pub key: String,
    pub entry_type: EntryType,
    pub title: Option<Title>,
    pub authors: Option<Vec<Name>>,
    pub date: Option<DateIso8601>,
    pub editors: Option<Vec<Name>>,
    pub publisher: Option<String>,
    pub location: Option<String>,
    pub organization: Option<String>,
    pub url: Option<String>,
    pub serial_number: Option<String>,
    pub isbn: Option<String>,
    pub language: Option<String>,
    pub note: Option<String>,
}

/// The builder: one three-tier container per semantic field, plus the
/// entry-type slot that the vocabulary-application steps may upgrade.
#[derive(Debug)]
pub struct CitationBuilder {
    pub entry_type: EntryType,
    pub title: PriorityData<Title>,
    pub authors: PriorityData<Vec<Name>>,
    pub date: PriorityData<DateIso8601>,
    pub editors: PriorityData<Vec<Name>>,
    pub publisher: PriorityData<String>,
    pub location: PriorityData<String>,
    pub organization: PriorityData<String>,
    pub url: PriorityData<String>,
    pub serial_number: PriorityData<String>,
    pub isbn: PriorityData<String>,
    pub language: PriorityData<String>,
    pub note: PriorityData<String>,
}

/// The Open Graph title a scan settles on.
pub open spec fn s_og_title(elems: Seq<Elem>) -> Option<Seq<char>> {
    scalar_val(elems, sel1("property"@, "og:title"@), decf_title())
}

/// The Open Graph canonical URL a scan settles on.
pub open spec fn s_og_url(elems: Seq<Elem>) -> Option<Seq<char>> {
    scalar_val(elems, sel1("property"@, "og:url"@), decf_str(StrRule::UrlKind))
}

/// The Open Graph locale a scan settles on.
pub open spec fn s_og_locale(elems: Seq<Elem>) -> Option<Seq<char>> {
    scalar_val(elems, sel1("property"@, "og:locale"@), decf_str(StrRule::LangKind))
}

/// The Open Graph video URL a scan settles on.
pub open spec fn s_video_url(elems: Seq<Elem>) -> Option<Seq<char>> {
    scalar_val(elems, sel1("property"@, "og:video"@), decf_str(StrRule::UrlKind))
}

/// Whether the document declares `og:type=article`.
pub open spec fn s_article_flag(elems: Seq<Elem>) -> bool {
    any_hit(elems, selc("property"@, "og:type"@, "content"@, "article"@))
}

/// The article authors a scan accumulates.
pub open spec fn s_article_authors(elems: Seq<Elem>) -> Seq<NameV> {
    list_vals(elems, sel1("property"@, "og:article:author"@), decf_person())
}

/// Whether the document declares `og:type=book`.
pub open spec fn s_book_flag(elems: Seq<Elem>) -> bool {
    any_hit(elems, selc("property"@, "og:type"@, "content"@, "book"@))
}

/// The book authors a scan accumulates.
pub open spec fn s_book_authors(elems: Seq<Elem>) -> Seq<NameV> {
    list_vals(elems, sel1("property"@, "og:book:author"@), decf_person())
}

/// The book ISBN a scan settles on.
pub open spec fn s_book_isbn(elems: Seq<Elem>) -> Option<Seq<char>> {
    scalar_val(elems, sel1("property"@, "og:book:isbn"@), decf_str(StrRule::IsbnKind))
}

/// The entry type the fixed transition order settles on: book evidence
/// overrides article evidence, which overrides video evidence, which
/// overrides the `Web` default — last rule wins.
pub open spec fn spec_entry_type(elems: Seq<Elem>) -> EntryType {
    if s_book_isbn(elems) is Some || s_book_authors(elems).len() > 0 || s_book_flag(elems) {
        EntryType::Book
    } else if s_article_authors(elems).len() > 0 || s_article_flag(elems) {
        EntryType::Article
    } else if s_video_url(elems) is Some {
        EntryType::Video
    } else {
        EntryType::Web
    }
}

/// The merged title: Open Graph, else generic meta, else the heading.
pub open spec fn spec_merged_title(doc: Document) -> Option<Seq<char>> {
    if s_og_title(doc.elems@) is Some {
        s_og_title(doc.elems@)
    } else if spec_gen_title(doc.elems@) is Some {
        spec_gen_title(doc.elems@)
    } else {
        match doc.heading {
            Some(h) => Some(ascii_fold(h@)),
            None => None,
        }
    }
}

/// The merged author list: book authors, else article authors, else the
/// single generic author.
pub open spec fn spec_merged_authors(elems: Seq<Elem>) -> Option<Seq<NameV>> {
    if s_book_authors(elems).len() > 0 {
        Some(s_book_authors(elems))
    } else if s_article_authors(elems).len() > 0 {
        Some(s_article_authors(elems))
    } else {
        match spec_gen_author(elems) {
            Some(a) => Some(seq![a]),
            None => None,
        }
    }
}

/// The merged URL: the video URL, else the Open Graph canonical URL,
/// else the document's own address — always present.
pub open spec fn spec_merged_url(doc: Document) -> Seq<char> {
    if s_video_url(doc.elems@) is Some {
        s_video_url(doc.elems@)->0
    } else if s_og_url(doc.elems@) is Some {
        s_og_url(doc.elems@)->0
    } else {
        doc.url@
    }
}

/// The merged language: the Open Graph locale, else the generic one.
pub open spec fn spec_merged_language(elems: Seq<Elem>) -> Option<Seq<char>> {
    if s_og_locale(elems) is Some {
        s_og_locale(elems)
    } else {
        spec_gen_language(elems)
    }
}

/// What the full pipeline promises of the record it assembles from a
/// document: every field a function of the captured elements, heading
/// and address alone.
pub open spec fn citation_matches(c: Citation, doc: Document) -> bool {
    &&& c.entry_type == spec_entry_type(doc.elems@)
    &&& c.title.deep_view() == spec_merged_title(doc)
    &&& (c.title matches Some(t) ==> t.wf())
    &&& c.key@ == spec_derived_key(spec_merged_title(doc))
    &&& c.authors.deep_view() == spec_merged_authors(doc.elems@)
    &&& c.url.deep_view() == Some(spec_merged_url(doc))
    &&& c.language.deep_view() == spec_merged_language(doc.elems@)
    &&& c.isbn.deep_view() == s_book_isbn(doc.elems@)
    &&& c.date is None
    &&& c.editors is None
    &&& c.publisher is None
    &&& c.location is None
    &&& c.organization is None
    &&& c.serial_number is None
    &&& c.note is None
}

impl CitationBuilder {
    /// A fresh builder: entry type `Web`, the document's own address
    /// seeded as the first-priority URL, every other tier empty.
    pub fn new(url: String) -> (r: CitationBuilder)
        ensures
            r.entry_type == EntryType::Web,
            r.url.first == Some(url),
            r.url.second is None && r.url.third is None,
            r.title == PriorityData::<Title>::spec_empty(),
            r.authors == PriorityData::<Vec<Name>>::spec_empty(),
            r.date == PriorityData::<DateIso8601>::spec_empty(),
            r.editors == PriorityData::<Vec<Name>>::spec_empty(),
            r.publisher == PriorityData::<String>::spec_empty(),
            r.location == PriorityData::<String>::spec_empty(),
            r.organization == PriorityData::<String>::spec_empty(),
            r.serial_number == PriorityData::<String>::spec_empty(),
            r.isbn == PriorityData::<String>::spec_empty(),
            r.language == PriorityData::<String>::spec_empty(),
            r.note == PriorityData::<String>::spec_empty(),
    {
        CitationBuilder {
            entry_type: EntryType::Web,
            title: Default::default(),
            authors: Default::default(),
            date: Default::default(),
            editors: Default::default(),
            publisher: Default::default(),
            location: Default::default(),
            organization: Default::default(),
            url: PriorityData { first: Some(url), second: None, third: None },
            serial_number: Default::default(),
            isbn: Default::default(),
            language: Default::default(),
            note: Default::default(),
        }
    }

    /// Apply the heading report: a heading title lands in the third
    /// (lowest-authority) tier; everything else is untouched.
    pub fn with_html_query_report(self, report: HtmlQueryReport) -> (r: CitationBuilder)
        ensures
            r.title.third == (if report.title is Some {
                report.title
            } else {
                self.title.third
            }),
            r.title.first == self.title.first,
            r.title.second == self.title.second,
            r.entry_type == self.entry_type,
            r.authors == self.authors,
            r.date == self.date,
            r.editors == self.editors,
            r.publisher == self.publisher,
            r.location == self.location,
            r.organization == self.organization,
            r.url == self.url,
            r.serial_number == self.serial_number,
            r.isbn == self.isbn,
            r.language == self.language,
            r.note == self.note,
    {
        let mut this = self;
        match report.title {
            Some(title) => {
                this.title.third = Some(title);
            },
            None => {},
        }
        this
    }

    /// Apply the generic vocabulary: title, language and the single
    /// author land in the second tier; everything else is untouched.
    pub fn with_generic_metadata(self, m: GenericMetadata) -> (r: CitationBuilder)
        ensures
            r.title.second == (if m.title is Some {
                m.title
            } else {
                self.title.second
            }),
            r.title.first == self.title.first,
            r.title.third == self.title.third,
            r.language.second == (if m.language is Some {
                m.language
            } else {
                self.language.second
            }),
            r.language.first == self.language.first,
            r.language.third == self.language.third,
            r.authors.second.deep_view() == (match m.author {
                Some(a) => Some(seq![a.deep_view()]),
                None => self.authors.second.deep_view(),
            }),
            r.authors.first == self.authors.first,
            r.authors.third == self.authors.third,
            r.entry_type == self.entry_type,
            r.date == self.date,
            r.editors == self.editors,
            r.publisher == self.publisher,
            r.location == self.location,
            r.organization == self.organization,
            r.url == self.url,
            r.serial_number == self.serial_number,
            r.isbn == self.isbn,
            r.note == self.note,
    {
        let mut this = self;
        match m.title {
            Some(title) => {
                this.title.second = Some(title);
            },
            None => {},
        }
        match m.language {
            Some(language) => {
                this.language.second = Some(language);
            },
            None => {},
        }
        match m.author {
            Some(author) => {
                let mut authors = Vec::new();
                authors.push(author);
                assert(authors.deep_view() =~= seq![authors@[0].deep_view()]);
                this.authors.second = Some(authors);
            },
            None => {},
        }
        this
    }

    /// Apply the Open Graph vocabulary, in the fixed transition order:
    /// title, canonical URL and locale land in the first tier; a video
    /// URL upgrades the entry type to `Video` and overrides the URL;
    /// article evidence upgrades it to `Article` and takes the article
    /// authors; book evidence upgrades it to `Book` and takes the book
    /// authors and ISBN — later rules override earlier ones.
    #[verifier::rlimit(60)]
    pub fn with_ogp_metadata(self, m: OgpMetadata) -> (r: CitationBuilder)
        ensures
            r.title.first == (if m.title is Some {
                m.title
            } else {
                self.title.first
            }),
            r.title.second == self.title.second,
            r.title.third == self.title.third,
            r.url.first == (if m.video.url is Some {
                m.video.url
            } else if m.url is Some {
                m.url
            } else {
                self.url.first
            }),
            r.url.second == self.url.second,
            r.url.third == self.url.third,
            r.language.first == (if m.locale is Some {
                m.locale
            } else {
                self.language.first
            }),
            r.language.second == self.language.second,
            r.language.third == self.language.third,
            r.authors.first == (if m.book.authors.len() > 0 {
                Some(m.book.authors)
            } else if m.article.authors.len() > 0 {
                Some(m.article.authors)
            } else {
                self.authors.first
            }),
            r.authors.second == self.authors.second,
            r.authors.third == self.authors.third,
            r.isbn.first == (if m.book.isbn is Some {
                m.book.isbn
            } else {
                self.isbn.first
            }),
            r.isbn.second == self.isbn.second,
            r.isbn.third == self.isbn.third,
            r.entry_type == (if m.book.isbn is Some || m.book.authors.len() > 0
                || m.book.is_book {
                EntryType::Book
            } else if m.article.authors.len() > 0 || m.article.is_article {
                EntryType::Article
            } else if m.video.url is Some {
                EntryType::Video
            } else {
                self.entry_type
            }),
            r.date == self.date,
            r.editors == self.editors,
            r.publisher == self.publisher,
            r.location == self.location,
            r.organization == self.organization,
            r.serial_number == self.serial_number,
            r.note == self.note,
    {
        let mut this = self;
        match m.title {
            Some(title) => {
                this.title.first = Some(title);
            },
            None => {},
        }
        match m.url {
            Some(url) => {
                this.url.first = Some(url);
            },
            None => {},
        }
        match m.locale {
            Some(language) => {
                this.language.first = Some(language);
            },
            None => {},
        }
        match m.video.url {
            Some(url) => {
                this.entry_type = EntryType::Video;
                this.url.first = Some(url);
            },
            None => {},
        }
        if m.article.is_article {
            this.entry_type = EntryType::Article;
        }
        if m.article.authors.len() > 0 {
            this.entry_type = EntryType::Article;
            this.authors.first = Some(m.article.authors);
        }
        if m.book.is_book {
            this.entry_type = EntryType::Book;
        }
        if m.book.authors.len() > 0 {
            this.entry_type = EntryType::Book;
            this.authors.first = Some(m.book.authors);
        }
        match m.book.isbn {
            Some(isbn) => {
                this.entry_type = EntryType::Book;
                this.isbn.first = Some(isbn);
            },
            None => {},
        }
        this
    }

    /// Finalize: resolve every field to its highest populated tier and
    /// derive the key from the highest-priority title — the placeholder
    /// key when no title is available or the title yields no token.
    pub fn build(self) -> (r: Citation)
        ensures
            r.entry_type == self.entry_type,
            r.title == self.title.spec_highest(),
            r.key@ == spec_derived_key(self.title.spec_highest().deep_view()),
            r.authors == self.authors.spec_highest(),
            r.date == self.date.spec_highest(),
            r.editors == self.editors.spec_highest(),
            r.publisher == self.publisher.spec_highest(),
            r.location == self.location.spec_highest(),
            r.organization == self.organization.spec_highest(),
            r.url == self.url.spec_highest(),
            r.serial_number == self.serial_number.spec_highest(),
            r.isbn == self.isbn.spec_highest(),
            r.language == self.language.spec_highest(),
            r.note == self.note.spec_highest(),
    {
        let CitationBuilder {
            entry_type,
            title,
            authors,
            date,
            editors,
            publisher,
            location,
            organization,
            url,
            serial_number,
            isbn,
            language,
            note,
        } = self;
        let title = title.highest();
        let key = match &title {
            Some(t) => calculate_key(t.canonical.as_str()),
            None => "placeholder".to_owned(),
        };
        Citation {
            key,
            entry_type,
            title,
            authors: authors.highest(),
            date: date.highest(),
            editors: editors.highest(),
            publisher: publisher.highest(),
            location: location.highest(),
            organization: organization.highest(),
            url: url.highest(),
            serial_number: serial_number.highest(),
            isbn: isbn.highest(),
            language: language.highest(),
            note: note.highest(),
        }
    }
}

/// First match wins at the vocabulary level: when element `i` is the
/// first that matches the title selector and carries a `content`
/// attribute, the scanned Open Graph title is exactly that element's
/// content, normalized — whatever later elements hold.
pub proof fn lemma_og_title_first_match_wins(elems: Seq<Elem>, i: int)
    requires
        0 <= i < elems.len(),
        crate::meta::item::qualifies(elems[i], sel1("property"@, "og:title"@)),
        forall|k: int|
            0 <= k < i ==> !crate::meta::item::qualifies(
                #[trigger] elems[k],
                sel1("property"@, "og:title"@),
            ),
    ensures
        s_og_title(elems) == Some(
            ascii_fold(crate::elem::attr_of(elems[i], "content"@)->0),
        ),
{
    crate::meta::item::lemma_first_match_wins(elems, sel1("property"@, "og:title"@), i);
}

/// Extraction is deterministic: two records assembled from the same
/// document agree on every field — re-running extraction can only give
/// the same record again.
pub proof fn lemma_extraction_deterministic(c1: Citation, c2: Citation, doc: Document)
    requires
        citation_matches(c1, doc),
        citation_matches(c2, doc),
    ensures
        c1.entry_type == c2.entry_type,
        c1.key@ == c2.key@,
        c1.title.deep_view() == c2.title.deep_view(),
        c1.authors.deep_view() == c2.authors.deep_view(),
        c1.url.deep_view() == c2.url.deep_view(),
        c1.language.deep_view() == c2.language.deep_view(),
        c1.isbn.deep_view() == c2.isbn.deep_view(),
        c1.date == c2.date,
        c1.editors is None && c2.editors is None,
        c1.publisher is None && c2.publisher is None,
        c1.location is None && c2.location is None,
        c1.organization is None && c2.organization is None,
        c1.serial_number is None && c2.serial_number is None,
        c1.note is None && c2.note is None,
{
}

impl Citation {
    /// Run the full pipeline on one parsed document: scan the heading
    /// report and both vocabularies, apply them in fixed order, and
    /// assemble the record, aggregating every scan failure.
    #[verifier::rlimit(100)]
    pub fn new(doc: &Document) -> (r: (Citation, Errors))
        ensures
            citation_matches(r.0, *doc),
            r.1@ == crate::meta::generic::gen_errs(doc.elems@) + crate::meta::ogp::ogp_errs(
                doc.elems@,
            ),
    {
        let report = doc.html_query_report();
        let (gm, mut errors) = doc.generic_metadata();
        let (om, mut ogp_errors) = doc.ogp_metadata();
        errors.errors(&mut ogp_errors);
        proof {
            reveal(crate::meta::ogp::ogp_core_fields);
            reveal(article_fields);
            reveal(book_fields);
            reveal(video_fields);
        }
        let citation = CitationBuilder::new(doc.url.clone())
            .with_html_query_report(report)
            .with_generic_metadata(gm)
            .with_ogp_metadata(om)
            .build();
        (citation, errors)
    }
}

} // verus!
