//! The glossary-API shapes of the catalog data, and their conversions into
//! the standard model.  Fetching itself is the caller's business: these
//! types only carry what came back, as plain values.

pub mod album;
pub mod currency;
pub mod item;
pub mod list;
pub mod lootbox;
