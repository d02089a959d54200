//! Items of the array-of-records citation format: ordinary values, dates
//! and names.

pub mod ordinaries;
pub mod dates;
pub mod items;
pub mod names;
