//! The decode/match failure taxonomy and the aggregate that a scan
//! collects failures into without aborting.

use vstd::prelude::*;

verus! {

/// One recoverable extraction failure.
#[derive(Debug, Clone, Copy, PartialEq, Eq, Structural)]
pub enum MetaError {
    /// An attribute value is not a well-formed URL.
    UrlParse,
    /// An attribute value is not a well-formed MIME type.
    MimeFromStr,
    /// An attribute value is not an RFC 3339 date.
    DateParse,
    /// An attribute value is not a valid ISBN.
    Isbn,
    /// An attribute value is not an ISSN.
    IssnParse,
    /// An attribute value is not a language identifier.
    LanguageIdentifier,
    /// No surname could be identified in a person name.
    NameParse,
    /// An attribute value is not an unsigned integer.
    IntParse,
    /// The document offers no heading to derive a title from.
    TitleNotFound,
    /// A presence-only item was asked for a decoded value.
    NoExtractionTarget,
    /// A selector matched but the target attribute is absent.
    ExtractionContentNotFound,
    /// A metadata value was converted to the wrong type.
    WrongMetadataType,
    /// A record part lacks the fields needed to assemble it.
    MissingMetadata,
}

pub type MetaResult<T> = Result<T, MetaError>;

/// The ordered aggregate of failures from one scan.
#[derive(Debug)]
pub struct Errors {
    pub errors: Vec<MetaError>,
}

impl View for Errors {
    type V = Seq<MetaError>;

    open spec fn view(&self) -> Seq<MetaError> {
        self.errors@
    }
}

impl Errors {
    /// An empty aggregate.
    pub fn new() -> (r: Self)
        ensures
            r@ == Seq::<MetaError>::empty(),
    {
        Errors { errors: Vec::new() }
    }

    /// Record one failure at the end of the aggregate.
    pub fn err(&mut self, err: MetaError)
        ensures
            final(self)@ == old(self)@.push(err),
    {
        self.errors.push(err);
    }

    /// Move every failure of `other` to the end of this aggregate,
    /// leaving `other` empty.
    pub fn errors(&mut self, other: &mut Errors)
        ensures
            final(self)@ == old(self)@ + old(other)@,
            final(other)@ == Seq::<MetaError>::empty(),
    {
        let mut taken = Vec::new();
        core::mem::swap(&mut taken, &mut other.errors);
        self.errors.append(&mut taken);
    }

    /// Keep a result's value, recording its failure instead if it has one.
    pub fn capture<T>(&mut self, result: MetaResult<T>) -> (r: Option<T>)
        ensures
            match result {
                Ok(v) => r == Some(v) && final(self)@ == old(self)@,
                Err(e) => r is None && final(self)@ == old(self)@.push(e),
            },
    {
        match result {
            Ok(some) => Some(some),
            Err(e) => {
                self.err(e);
                None
            },
        }
    }

    /// Whether the scan completed without a single failure.
    pub fn is_success(&self) -> (r: bool)
        ensures
            r == (self@.len() == 0),
    {
        self.errors.len() == 0
    }
}

} // verus!
