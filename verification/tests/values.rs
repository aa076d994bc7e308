use html_meta::error::Errors;
use html_meta::error::MetaError;
use html_meta::meta::ogp::profile::OgpProfile;
use html_meta::meta::value::date::DateIso8601;
use html_meta::meta::value::issn::is_issn;
use html_meta::meta::value::issn::Issn;
use html_meta::meta::value::name::Name;
use html_meta::meta::value::parse_u32;
use html_meta::meta::value::title::Title;
use html_meta::meta::value::MetadataValue;
use html_meta::priority::PriorityData;
use html_meta::query::calculate_key;
use html_meta::elem::Elem;
use html_meta::meta::item::MetadataItemTarget;

#[test]
fn key_uses_first_four_tokens() {
    assert_eq!(calculate_key("One Two Three Four Five Six"), "one-two-three-four");
    assert_eq!(calculate_key("Exactly Four Tokens Here"), "exactly-four-tokens-here");
}

#[test]
fn key_uses_all_tokens_when_fewer_than_four() {
    assert_eq!(calculate_key("Example Domain"), "example-domain");
    assert_eq!(calculate_key("Single"), "single");
    assert_eq!(calculate_key("  padded   whitespace  "), "padded-whitespace");
}

#[test]
fn key_of_empty_title_is_placeholder() {
    assert_eq!(calculate_key(""), "placeholder");
    assert_eq!(calculate_key("   "), "placeholder");
}

#[test]
fn key_strips_non_ascii_characters() {
    // the non-ASCII character vanishes rather than being transliterated
    assert_eq!(calculate_key("caf\u{e9} latte"), "caf-latte");
}

#[test]
fn key_is_stable_under_renormalization() {
    let raw = "\u{c9}tude in C\u{2014}Major with Gr\u{e2}ce Notes";
    let once = Title::new(raw);
    let twice = Title::new(&once.canonical);
    assert_eq!(once.canonical, twice.canonical);
    assert_eq!(calculate_key(&once.canonical), calculate_key(&twice.canonical));
}

#[test]
fn title_transliterates_to_ascii() {
    assert_eq!(Title::new("\u{c6}neid").canonical, "AEneid");
    assert_eq!(Title::new("Example Domain").canonical, "Example Domain");
    assert!(Title::new("\u{5317}\u{4eb0}").canonical.is_ascii());
}

#[test]
fn date_parses_rfc3339_only() {
    let d = DateIso8601::from_str("2023-01-15T10:30:00+02:00").unwrap();
    assert_eq!((d.year, d.month, d.day), (2023, 1, 15));
    assert_eq!(DateIso8601::from_str("January 15, 2023").unwrap_err(), MetaError::DateParse);
    assert_eq!(DateIso8601::from_str("2023-01-15").unwrap_err(), MetaError::DateParse);
}

#[test]
fn name_parses_surname_and_given_name() {
    let n = Name::parse("Jane Doe").unwrap();
    assert_eq!(n.surname, "Doe");
    assert_eq!(n.given_name.as_deref(), Some("Jane"));
    assert!(n.prefix.is_none());
    assert!(n.alias.is_none());
}

#[test]
fn name_joins_given_and_middle_names() {
    let n = Name::parse("James Tiberius Kirk").unwrap();
    assert_eq!(n.surname, "Kirk");
    assert_eq!(n.given_name.as_deref(), Some("James Tiberius"));
}

#[test]
fn name_without_surname_is_rejected() {
    assert_eq!(Name::parse("Homer").unwrap_err(), MetaError::NameParse);
    assert_eq!(Name::parse("").unwrap_err(), MetaError::NameParse);
}

#[test]
fn issn_shape_is_checked_exactly() {
    assert!(is_issn("1234-5678"));
    assert!(is_issn("1234-567X"));
    assert!(!is_issn("1234-567x"));
    assert!(!is_issn("12345678"));
    assert!(!is_issn("1234-56789"));
    assert!(!is_issn("abcd-5678"));
    let issn = Issn::from_str("2049-3630").unwrap();
    assert_eq!(issn.data, "2049-3630");
    assert_eq!(Issn::from_str("2049-363").unwrap_err(), MetaError::IssnParse);
}

#[test]
fn u32_decimal_parsing_matches_its_contract() {
    assert_eq!(parse_u32("0"), Some(0));
    assert_eq!(parse_u32("640"), Some(640));
    assert_eq!(parse_u32("+42"), Some(42));
    assert_eq!(parse_u32("4294967295"), Some(u32::MAX));
    assert_eq!(parse_u32("4294967296"), None);
    assert_eq!(parse_u32(""), None);
    assert_eq!(parse_u32("+"), None);
    assert_eq!(parse_u32("12a"), None);
    assert_eq!(parse_u32("-1"), None);
}

#[test]
fn priority_data_highest_prefers_earlier_tiers() {
    let d = PriorityData { first: Some(1), second: Some(2), third: Some(3) };
    assert_eq!(d.highest(), Some(1));
    let d = PriorityData { first: None, second: Some(2), third: Some(3) };
    assert_eq!(d.highest(), Some(2));
    let d = PriorityData { first: None, second: None, third: Some(3) };
    assert_eq!(d.highest(), Some(3));
    let d: PriorityData<i32> = PriorityData { first: None, second: None, third: None };
    assert_eq!(d.highest(), None);
    let d: PriorityData<i32> = Default::default();
    assert_eq!(d.highest(), None);
}

#[test]
fn metadata_value_conversions_are_exact() {
    assert_eq!(MetadataValue::Text("x".to_owned()).into_text().as_deref(), Some("x"));
    assert_eq!(MetadataValue::Text("x".to_owned()).into_url(), None);
    assert_eq!(MetadataValue::Url("https://example.com/".to_owned()).into_url().as_deref(), Some("https://example.com/"));
    assert_eq!(MetadataValue::Mime("text/html".to_owned()).into_mime().as_deref(), Some("text/html"));
    assert_eq!(MetadataValue::Language("en".to_owned()).into_language().as_deref(), Some("en"));
    let d = DateIso8601 { year: 2023, month: 1, day: 15 };
    assert_eq!(MetadataValue::Date(d).into_date(), Some(d));
    assert!(matches!(MetadataValue::Absent.into_title(), None));
    let t = MetadataValue::Title(Title::new("A Title")).into_title().unwrap();
    assert_eq!(t.canonical, "A Title");
    let n = Name::parse("Jane Doe").unwrap();
    assert_eq!(MetadataValue::Name(n).into_name().unwrap().surname, "Doe");
    let i = Issn::from_str("2049-3630").unwrap();
    assert_eq!(MetadataValue::Issn(i).into_issn().unwrap().data, "2049-3630");
    assert_eq!(
        MetadataValue::Isbn10("0140449132".to_owned()).into_isbn10().as_deref(),
        Some("0140449132")
    );
    assert_eq!(MetadataValue::Isbn10("0140449132".to_owned()).into_isbn13(), None);
    assert_eq!(
        MetadataValue::Isbn13("9780140449136".to_owned()).into_isbn13().as_deref(),
        Some("9780140449136")
    );
    assert_eq!(MetadataValue::Isbn13("9780140449136".to_owned()).into_isbn10(), None);
}

#[test]
fn profile_into_name_requires_last_name() {
    let p = OgpProfile {
        is_profile: false,
        first_name: Some("Jane".to_owned()),
        last_name: Some("Doe".to_owned()),
        username: Some("jdoe".to_owned()),
        gender: None,
    };
    let n = p.into_name().unwrap();
    assert_eq!(n.surname, "Doe");
    assert_eq!(n.given_name.as_deref(), Some("Jane"));
    assert_eq!(n.alias.as_deref(), Some("jdoe"));

    let p = OgpProfile {
        is_profile: false,
        first_name: Some("Jane".to_owned()),
        last_name: None,
        username: None,
        gender: None,
    };
    assert_eq!(p.into_name().unwrap_err(), MetaError::MissingMetadata);
}

#[test]
fn errors_capture_and_success() {
    let mut errors = Errors::new();
    assert!(errors.is_success());
    assert_eq!(errors.capture::<u32>(Ok(7)), Some(7));
    assert!(errors.is_success());
    assert_eq!(errors.capture::<u32>(Err(MetaError::DateParse)), None);
    assert!(!errors.is_success());
    let mut other = Errors::new();
    other.err(MetaError::UrlParse);
    errors.errors(&mut other);
    assert_eq!(errors.errors, vec![MetaError::DateParse, MetaError::UrlParse]);
    assert!(other.is_success());
}

#[test]
fn target_extract_reads_the_named_attribute() {
    let el = Elem {
        name: "meta".to_owned(),
        attrs: vec![("content".to_owned(), "hello".to_owned())],
    };
    let attr = MetadataItemTarget::Attr("content".to_owned());
    assert_eq!(attr.extract(&el).unwrap(), "hello");
    let missing = MetadataItemTarget::Attr("name".to_owned());
    assert_eq!(missing.extract(&el).unwrap_err(), MetaError::ExtractionContentNotFound);
    let presence = MetadataItemTarget::Presence;
    assert_eq!(presence.extract(&el).unwrap_err(), MetaError::NoExtractionTarget);
}
