//! The metadata item registries and the single-pass scanner.

pub mod generic;
pub mod item;
pub mod ogp;
pub mod value;
