//! Records of the hierarchical key-value citation format: calendar dates,
//! names, licenses, identifiers and the kinds of works.

pub mod date;
pub mod names;
pub mod license;
pub mod kinds;
pub mod identifiers;
pub mod document;
