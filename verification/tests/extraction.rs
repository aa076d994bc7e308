use html_meta::citation::EntryType;
use html_meta::doc::Document;
use html_meta::elem::Elem;
use html_meta::error::MetaError;

const EXAMPLE_HTML: &str = r#"<html>
    <head>
        <title>Example Domain</title>

        <meta charset="utf-8" />
        <meta http-equiv="Content-type" content="text/html; charset=utf-8" />
        <meta name="viewport" content="width=device-width, initial-scale=1" />
        <style type="text/css">
        body {
            background-color: #f0f0f2;
            margin: 0;
            padding: 0;
            font-family: -apple-system, system-ui, BlinkMacSystemFont, "Segoe UI", "Open Sans", "Helvetica Neue", Helvetica, Arial, sans-serif;

        }
        div {
            width: 600px;
            margin: 5em auto;
            padding: 2em;
            background-color: #fdfdff;
            border-radius: 0.5em;
            box-shadow: 2px 3px 7px 2px rgba(0,0,0,0.02);
        }
        a:link, a:visited {
            color: #38488f;
            text-decoration: none;
        }
        @media (max-width: 700px) {
            div {
                margin: 0 auto;
                width: auto;
            }
        }
        </style>
    </head>

    <body>
    <div>
        <h1>Example Domain</h1>
        <p>This domain is for use in illustrative examples in documents. You may use this
        domain in literature without prior coordination or asking for permission.</p>
        <p><a href="https://www.iana.org/domains/example">More information...</a></p>
    </div>
    </body>
    </html>"#;

fn meta(attrs: &[(&str, &str)]) -> Elem {
    Elem {
        name: "meta".to_owned(),
        attrs: attrs.iter().map(|(k, v)| (k.to_string(), v.to_string())).collect(),
    }
}

fn doc_of(elems: Vec<Elem>, heading: Option<&str>, url: &str) -> Document {
    Document {
        elems,
        heading: heading.map(|h| h.to_owned()),
        url: url.to_owned(),
    }
}

#[test]
fn document_find_key() {
    let doc = Document::parse(EXAMPLE_HTML, "http://example.com/").unwrap();

    let key = doc.find_key().unwrap();
    assert_eq!(key, "example-domain");
}

#[test]
fn document_find_title() {
    let doc = Document::parse(EXAMPLE_HTML, "http://example.com/").unwrap();

    let title = doc.find_title().unwrap();
    assert_eq!(title.canonical, "Example Domain");
}

#[test]
fn document_find_entry_type() {
    let doc = Document::parse(EXAMPLE_HTML, "http://example.com/").unwrap();

    let entry_type = doc.find_entry_type().unwrap();
    assert_eq!(entry_type, EntryType::Web)
}

#[test]
fn entry_try_from_doc() {
    let doc = Document::parse(EXAMPLE_HTML, "https://example.com/").unwrap();

    let (entry, errors) = doc.citation_entry();

    assert_eq!(entry.key, "example-domain");
    assert_eq!(entry.entry_type, EntryType::Web);
    assert_eq!(entry.title.unwrap().canonical, "Example Domain");
    assert_eq!(entry.url.as_deref(), Some("https://example.com/"));
    assert!(errors.is_success());
}

#[test]
fn html_query_report_query() {
    let doc = Document::parse(EXAMPLE_HTML, "http://example.com/").unwrap();

    let report = doc.html_query_report();

    assert_eq!(report.title.unwrap().canonical, "Example Domain");
}

#[test]
fn query_html_query_report_query() {
    let doc = Document::parse(EXAMPLE_HTML, "http://example.com/").unwrap();

    let report = doc.html_query_report();
    let title = report.title.unwrap();
    assert_eq!(title.canonical, "Example Domain");
    let key = html_meta::query::calculate_key(&title.canonical);
    assert_eq!(key, "example-domain");
}

#[test]
fn scenario_og_title_only() {
    let html = r#"<html><head><meta property="og:title" content="The Rock"></head><body></body></html>"#;
    let doc = Document::parse(html, "https://example.com/").unwrap();

    let (entry, errors) = doc.citation_entry();

    assert_eq!(entry.title.unwrap().canonical, "The Rock");
    assert_eq!(entry.entry_type, EntryType::Web);
    assert_eq!(entry.key, "the-rock");
    assert!(errors.is_success());
}

#[test]
fn scenario_book_with_isbn() {
    let html = r#"<html><head>
        <meta property="og:type" content="book">
        <meta property="og:book:isbn" content="9780140449136">
        <meta property="og:book:author" content="Homer">
    </head><body></body></html>"#;
    let doc = Document::parse(html, "https://example.com/").unwrap();

    let (entry, errors) = doc.citation_entry();

    assert_eq!(entry.entry_type, EntryType::Book);
    assert_eq!(entry.isbn.as_deref(), Some("9780140449136"));
    // a single token offers no identifiable surname, so the author is
    // reported as a name-parse failure and the list stays empty
    assert!(entry.authors.is_none());
    assert_eq!(errors.errors, vec![MetaError::NameParse]);
}

#[test]
fn scenario_book_with_authors() {
    let html = r#"<html><head>
        <meta property="og:type" content="book">
        <meta property="og:book:isbn" content="9780140449136">
        <meta property="og:book:author" content="Emily Wilson">
    </head><body></body></html>"#;
    let doc = Document::parse(html, "https://example.com/").unwrap();

    let (entry, errors) = doc.citation_entry();

    assert_eq!(entry.entry_type, EntryType::Book);
    assert_eq!(entry.isbn.as_deref(), Some("9780140449136"));
    let authors = entry.authors.unwrap();
    assert_eq!(authors.len(), 1);
    assert_eq!(authors[0].surname, "Wilson");
    assert_eq!(authors[0].given_name.as_deref(), Some("Emily"));
    assert!(errors.is_success());
}

#[test]
fn scenario_heading_only() {
    let html = r#"<html><head></head><body><h1>Example Domain</h1></body></html>"#;
    let doc = Document::parse(html, "https://example.com/").unwrap();

    let (entry, errors) = doc.citation_entry();

    assert_eq!(entry.title.unwrap().canonical, "Example Domain");
    assert_eq!(entry.key, "example-domain");
    assert_eq!(entry.entry_type, EntryType::Web);
    assert!(errors.is_success());
}

#[test]
fn scenario_og_title_beats_generic_title() {
    let html = r#"<html><head>
        <meta name="title" content="Generic Title">
        <meta property="og:title" content="Open Graph Title">
    </head><body><h1>Heading Title</h1></body></html>"#;
    let doc = Document::parse(html, "https://example.com/").unwrap();

    let (entry, _) = doc.citation_entry();

    assert_eq!(entry.title.unwrap().canonical, "Open Graph Title");
}

#[test]
fn first_match_wins_for_scalar_items() {
    let elems = vec![
        meta(&[("property", "og:title"), ("content", "First Title")]),
        meta(&[("property", "og:title"), ("content", "Second Title")]),
    ];
    let doc = doc_of(elems, None, "https://example.com/");

    let (om, errors) = doc.ogp_metadata();

    assert_eq!(om.title.unwrap().canonical, "First Title");
    assert!(errors.is_success());
}

#[test]
fn missing_attribute_keeps_item_unsatisfied() {
    // the first matching element has no content attribute: it is
    // reported and the item stays open for the later element
    let elems = vec![
        meta(&[("property", "og:title")]),
        meta(&[("property", "og:title"), ("content", "Recovered Title")]),
    ];
    let doc = doc_of(elems, None, "https://example.com/");

    let (om, errors) = doc.ogp_metadata();

    assert_eq!(om.title.unwrap().canonical, "Recovered Title");
    assert_eq!(errors.errors, vec![MetaError::ExtractionContentNotFound]);
}

#[test]
fn extraction_is_idempotent() {
    let html = r#"<html><head>
        <meta property="og:title" content="Stable Title">
        <meta property="og:article:published_time" content="not a date">
        <meta name="keywords" content="alpha">
        <meta name="keywords" content="beta">
    </head><body><h1>Heading</h1></body></html>"#;
    let doc = Document::parse(html, "https://example.com/").unwrap();

    let (e1, errs1) = doc.citation_entry();
    let (e2, errs2) = doc.citation_entry();

    assert_eq!(e1.key, e2.key);
    assert_eq!(e1.entry_type, e2.entry_type);
    assert_eq!(e1.title.map(|t| t.canonical), e2.title.map(|t| t.canonical));
    assert_eq!(e1.url, e2.url);
    assert_eq!(e1.language, e2.language);
    assert_eq!(e1.isbn, e2.isbn);
    assert_eq!(errs1.errors, errs2.errors);
    assert_eq!(errs1.errors, vec![MetaError::DateParse]);
}

#[test]
fn video_url_upgrades_entry_type_and_url() {
    let html = r#"<html><head>
        <meta property="og:url" content="https://example.com/page">
        <meta property="og:video" content="https://example.com/movie.mp4">
    </head><body></body></html>"#;
    let doc = Document::parse(html, "https://example.com/").unwrap();

    let (entry, _) = doc.citation_entry();

    assert_eq!(entry.entry_type, EntryType::Video);
    assert_eq!(entry.url.as_deref(), Some("https://example.com/movie.mp4"));
}

#[test]
fn article_author_upgrades_entry_type() {
    let html = r#"<html><head>
        <meta property="og:article:author" content="Jane Doe">
    </head><body></body></html>"#;
    let doc = Document::parse(html, "https://example.com/").unwrap();

    let (entry, errors) = doc.citation_entry();

    assert_eq!(entry.entry_type, EntryType::Article);
    let authors = entry.authors.unwrap();
    assert_eq!(authors.len(), 1);
    assert_eq!(authors[0].surname, "Doe");
    assert!(errors.is_success());
}

#[test]
fn book_overrides_article_overrides_video() {
    let html = r#"<html><head>
        <meta property="og:video" content="https://example.com/movie.mp4">
        <meta property="og:type" content="article">
        <meta property="og:type" content="book">
    </head><body></body></html>"#;
    let doc = Document::parse(html, "https://example.com/").unwrap();

    let (entry, _) = doc.citation_entry();

    // both discriminators fired; the book rule runs last and wins
    assert_eq!(entry.entry_type, EntryType::Book);
}

#[test]
fn generic_metadata_fields_and_lists() {
    let html = r#"<html><head>
        <meta name="title" content="A Generic Page">
        <meta name="description" content="Some description">
        <meta name="keywords" content="alpha">
        <meta name="keywords" content="beta">
        <meta name="language" content="en-US">
        <meta name="author" content="Jane Doe">
        <meta name="content-type" content="text/html">
    </head><body></body></html>"#;
    let doc = Document::parse(html, "https://example.com/").unwrap();

    let (gm, errors) = doc.generic_metadata();

    assert_eq!(gm.title.unwrap().canonical, "A Generic Page");
    assert_eq!(gm.description.as_deref(), Some("Some description"));
    assert_eq!(gm.keywords, vec!["alpha".to_owned(), "beta".to_owned()]);
    assert_eq!(gm.language.as_deref(), Some("en-US"));
    assert_eq!(gm.author.unwrap().surname, "Doe");
    assert_eq!(gm.content_type.as_deref(), Some("text/html"));
    assert!(errors.is_success());
}

#[test]
fn decode_failures_are_aggregated_not_fatal() {
    let html = r#"<html><head>
        <meta property="og:url" content="not a url">
        <meta property="og:book:isbn" content="not-an-isbn">
        <meta property="og:image:width" content="wide">
        <meta property="og:locale" content="no_good_locale!">
        <meta property="og:title" content="Still Extracted">
    </head><body></body></html>"#;
    let doc = Document::parse(html, "https://example.com/").unwrap();

    let (om, errors) = doc.ogp_metadata();

    assert_eq!(om.title.unwrap().canonical, "Still Extracted");
    assert!(om.url.is_none());
    assert!(om.book.isbn.is_none());
    assert!(om.image.width.is_none());
    assert!(om.locale.is_none());
    let mut kinds = errors.errors.clone();
    kinds.sort_by_key(|e| format!("{e:?}"));
    assert_eq!(
        kinds,
        vec![
            MetaError::IntParse,
            MetaError::Isbn,
            MetaError::LanguageIdentifier,
            MetaError::UrlParse,
        ]
    );
}

#[test]
fn ogp_nested_objects_are_populated() {
    let html = r#"<html><head>
        <meta property="og:image" content="https://example.com/a.png">
        <meta property="og:image:width" content="640">
        <meta property="og:image:height" content="480">
        <meta property="og:image:alt" content="A picture">
        <meta property="og:audio" content="https://example.com/a.mp3">
        <meta property="og:audio:type" content="audio/mpeg">
        <meta property="og:locale:alternate" content="fr-FR">
        <meta property="og:locale:alternate" content="de-DE">
        <meta property="og:site_name" content="Example Site">
        <meta property="og:profile:first_name" content="Jane">
        <meta property="og:profile:last_name" content="Doe">
        <meta property="og:article:published_time" content="2023-01-15T10:00:00Z">
    </head><body></body></html>"#;
    let doc = Document::parse(html, "https://example.com/").unwrap();

    let (om, errors) = doc.ogp_metadata();

    assert_eq!(om.image.url.as_deref(), Some("https://example.com/a.png"));
    assert_eq!(om.image.width, Some(640));
    assert_eq!(om.image.height, Some(480));
    assert_eq!(om.image.alt.as_deref(), Some("A picture"));
    assert_eq!(om.audio.url.as_deref(), Some("https://example.com/a.mp3"));
    assert_eq!(om.audio.mime.as_deref(), Some("audio/mpeg"));
    assert_eq!(om.alternate_locales, vec!["fr-FR".to_owned(), "de-DE".to_owned()]);
    assert_eq!(om.site_name.as_deref(), Some("Example Site"));
    assert_eq!(om.profile.first_name.as_deref(), Some("Jane"));
    assert_eq!(om.profile.last_name.as_deref(), Some("Doe"));
    let d = om.article.published_time.unwrap();
    assert_eq!((d.year, d.month, d.day), (2023, 1, 15));
    assert!(errors.is_success());
}

#[test]
fn profile_discriminator_raises_the_flag() {
    let html = r#"<html><head>
        <meta property="og:type" content="profile">
        <meta property="og:profile:last_name" content="Doe">
    </head><body></body></html>"#;
    let doc = Document::parse(html, "https://example.com/").unwrap();

    let (om, errors) = doc.ogp_metadata();

    assert!(om.profile.is_profile);
    assert_eq!(om.profile.last_name.as_deref(), Some("Doe"));
    assert!(errors.is_success());
}

#[test]
fn profile_flag_stays_down_without_the_tag() {
    let html = r#"<html><head>
        <meta property="og:profile:last_name" content="Doe">
        <meta property="og:type" content="article">
    </head><body></body></html>"#;
    let doc = Document::parse(html, "https://example.com/").unwrap();

    let (om, _) = doc.ogp_metadata();

    assert!(!om.profile.is_profile);
}

#[test]
fn document_rejects_bad_base_url() {
    let err = Document::parse("<html></html>", "not a url").unwrap_err();
    assert_eq!(err, MetaError::UrlParse);
}

#[test]
fn base_url_is_normalized() {
    let doc = Document::parse("<html></html>", "https://example.com").unwrap();
    assert_eq!(doc.url(), "https://example.com/");
}

#[test]
fn errors_are_reported_in_document_order() {
    let elems = vec![
        meta(&[("property", "og:book:isbn"), ("content", "not-an-isbn")]),
        meta(&[("property", "og:url"), ("content", "not a url")]),
        meta(&[("property", "og:book:isbn"), ("content", "also bad")]),
    ];
    let doc = doc_of(elems, None, "https://example.com/");

    let (om, errors) = doc.ogp_metadata();

    // the ISBN item was satisfied (and rejected) by the first element,
    // so the third element is not inspected again
    assert!(om.book.isbn.is_none());
    assert_eq!(errors.errors, vec![MetaError::Isbn, MetaError::UrlParse]);
}
