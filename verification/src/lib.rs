//! Extraction of bibliographic metadata from an HTML document's `meta`
//! tags and heading content: a registry of typed metadata items per
//! vocabulary, a single-pass scanner that aggregates failures without
//! aborting, a three-tier priority merge that reconciles the
//! vocabularies by source authority, and the citation assembly that
//! infers the entry type and derives the citation key.

use vstd::prelude::*;

pub mod citation;
pub mod doc;
pub mod elem;
pub mod error;
pub mod meta;
pub mod priority;
pub mod query;
