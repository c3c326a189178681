//! The component's two operations: latest entries and search results, each
//! returned as JSON text.
use vstd::prelude::*;
use crate::entry::{latest_entries, latest_records, search_entries, search_records};
use crate::json::{EncodeError, encode_entries, encoding};

verus! {

/// The feed component.
pub struct RssSearch;

impl RssSearch {
    /// The JSON text of the latest `limit` entries, records `0..limit` in
    /// ascending order. Always succeeds.
    pub fn rss_latest(limit: u32) -> (r: Result<String, EncodeError>)
        ensures
            r is Ok,
            r matches Ok(t) ==> t@ == encoding(latest_records(limit as nat)),
    {
        let entries = latest_entries(limit);
        encode_entries(&entries)
    }

    /// The JSON text of `limit` results for `query`, records `0..limit` in
    /// ascending order; the query is embedded verbatim. Always succeeds.
    pub fn rss_search(query: String, limit: u32) -> (r: Result<String, EncodeError>)
        ensures
            r is Ok,
            r matches Ok(t) ==> t@ == encoding(search_records(query@, limit as nat)),
    {
        let results = search_entries(query.as_str(), limit);
        encode_entries(&results)
    }
}

} // verus!
