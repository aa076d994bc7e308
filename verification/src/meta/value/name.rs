//! Person names decoded from free text. A name must have an identifiable
//! surname; the given and middle parts are joined into one given name.

use vstd::prelude::*;
use crate::error::MetaError;
use crate::error::MetaResult;

verus! {

/// What the person-name parser reads from free text, a function of the
/// input characters alone: `(surname, given, middle, prefix, suffix)`,
/// or nothing when no surname can be identified.
pub uninterp spec fn human_parsed(s: Seq<char>) -> Option<
    (Seq<char>, Option<Seq<char>>, Option<Seq<char>>, Option<Seq<char>>, Option<Seq<char>>),
>;

/// The spec-level shape of a decoded person name.
pub struct NameV {
    pub surname: Seq<char>,
    pub given_name: Option<Seq<char>>,
    pub prefix: Option<Seq<char>>,
    pub suffix: Option<Seq<char>>,
    pub alias: Option<Seq<char>>,
}

/// A decoded person name. The surname is always present.
#[derive(Debug)]
pub struct Name {
    pub surname: String,
    pub given_name: Option<String>,
    pub prefix: Option<String>,
    pub suffix: Option<String>,
    pub alias: Option<String>,
}

impl View for Name {
    type V = NameV;

    open spec fn view(&self) -> NameV {
        NameV {
            surname: self.surname@,
            given_name: self.given_name.deep_view(),
            prefix: self.prefix.deep_view(),
            suffix: self.suffix.deep_view(),
            alias: self.alias.deep_view(),
        }
    }
}

impl DeepView for Name {
    type V = NameV;

    open spec fn deep_view(&self) -> NameV {
        self.view()
    }
}

/// The given name handed out: given and middle parts joined by a space,
/// the given part alone when there is no middle part, nothing otherwise.
pub open spec fn join_given(given: Option<Seq<char>>, middle: Option<Seq<char>>) -> Option<
    Seq<char>,
> {
    match (given, middle) {
        (Some(g), Some(m)) => Some(g + " "@ + m),
        (Some(g), None) => Some(g),
        _ => None,
    }
}

/// The person a free-text string decodes to, if any.
pub open spec fn person_of(s: Seq<char>) -> Option<NameV> {
    match human_parsed(s) {
        None => None,
        Some(t) => Some(
            NameV {
                surname: t.0,
                given_name: join_given(t.1, t.2),
                prefix: t.3,
                suffix: t.4,
                alias: None,
            },
        ),
    }
}

/// The raw parts the outside parser hands back.
struct NameParts {
    surname: String,
    given: Option<String>,
    middle: Option<String>,
    prefix: Option<String>,
    suffix: Option<String>,
}

/// Relies on `human_name::Name::parse` and its getters `surname`,
/// `given_name`, `middle_name`, `honorific_prefix`, `honorific_suffix`:
/// parsing fails exactly when no plausible name with a surname is found,
/// and the parts depend on the input characters alone.
#[verifier::external_body]
fn parse_person_raw(s: &str) -> (r: Option<NameParts>)
    ensures
        (r is Some) == (human_parsed(s@) is Some),
        r matches Some(p) ==> human_parsed(s@) == Some(
            (
                p.surname@,
                p.given.deep_view(),
                p.middle.deep_view(),
                p.prefix.deep_view(),
                p.suffix.deep_view(),
            ),
        ),
{
    let n = human_name::Name::parse(s)?;
    Some(NameParts {
        surname: n.surname().to_owned(),
        given: n.given_name().map(|g| g.to_owned()),
        middle: n.middle_name().map(|m| m.into_owned()),
        prefix: n.honorific_prefix().map(|p| p.to_owned()),
        suffix: n.honorific_suffix().map(|x| x.to_owned()),
    })
}

impl Name {
    /// Decode a free-text person name; fail with `NameParse` exactly when
    /// no surname can be identified.
    pub fn parse(s: &str) -> (r: MetaResult<Name>)
        ensures
            (r is Ok) == (person_of(s@) is Some),
            r matches Ok(n) ==> person_of(s@) == Some(n.deep_view()),
            r matches Err(e) ==> e == MetaError::NameParse,
    {
        match parse_person_raw(s) {
            None => Err(MetaError::NameParse),
            Some(p) => {
                let given_name: Option<String> = match (p.given, p.middle) {
                    (Some(g), Some(m)) => Some(g.concat(" ").concat(m.as_str())),
                    (Some(g), None) => Some(g),
                    _ => None,
                };
                Ok(Name {
                    surname: p.surname,
                    given_name,
                    prefix: p.prefix,
                    suffix: p.suffix,
                    alias: None,
                })
            },
        }
    }
}

} // verus!
