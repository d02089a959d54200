//! Citation metadata codecs: shape-directed decoding and faithful encoding
//! of bibliographic records held in loosely typed document trees.

pub mod node;
pub mod text;
pub mod weburl;
pub mod cff;
pub mod csl;
pub mod convert;
