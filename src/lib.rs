//! Placeholder feed component: generates synthetic feed records and encodes
//! them as a JSON array of objects.
pub mod decimal;
pub mod entry;
pub mod json;
pub mod component;
pub mod laws;

pub use component::RssSearch;
pub use entry::FeedEntry;
pub use json::EncodeError;
