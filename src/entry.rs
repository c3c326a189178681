//! Feed records and the two generators of placeholder records.
use vstd::prelude::*;
use vstd::string::*;
use crate::decimal::{decimal, decimal_string};

verus! {

/// The publication time shared by every generated record.
pub const PUBLISHED: &'static str = "2025-09-27T12:00:00Z";

/// One feed record: four text fields.
pub struct FeedEntry {
    pub title: String,
    pub link: String,
    pub published: String,
    pub summary_ai: String,
}

/// The mathematical value of a [`FeedEntry`]: its four fields as character
/// sequences.
pub struct EntryModel {
    pub title: Seq<char>,
    pub link: Seq<char>,
    pub published: Seq<char>,
    pub summary_ai: Seq<char>,
}

impl View for FeedEntry {
    type V = EntryModel;

    open spec fn view(&self) -> EntryModel {
        EntryModel {
            title: self.title@,
            link: self.link@,
            published: self.published@,
            summary_ai: self.summary_ai@,
        }
    }
}

/// The models of a sequence of records, in the same order.
pub open spec fn models(es: Seq<FeedEntry>) -> Seq<EntryModel> {
    es.map_values(|e: FeedEntry| e@)
}

/// The record of index `i` among the latest entries.
pub open spec fn latest_record(i: nat) -> EntryModel {
    EntryModel {
        title: "Demo Article "@ + decimal(i),
        link: "https://example.com/article"@ + decimal(i),
        published: PUBLISHED@,
        summary_ai: "This is a test summary for item "@ + decimal(i),
    }
}

/// The record of index `i` among the results for query `q`.
pub open spec fn search_record(q: Seq<char>, i: nat) -> EntryModel {
    EntryModel {
        title: "Result "@ + decimal(i) + " for "@ + q,
        link: "https://example.com/search/"@ + q + "/"@ + decimal(i),
        published: PUBLISHED@,
        summary_ai: "This is a search result for "@ + q,
    }
}

/// The latest entries for a limit of `n`: records `0..n` in ascending order.
pub open spec fn latest_records(n: nat) -> Seq<EntryModel> {
    Seq::new(n, |i: int| latest_record(i as nat))
}

/// The results for query `q` and a limit of `n`: records `0..n` in ascending
/// order.
pub open spec fn search_records(q: Seq<char>, n: nat) -> Seq<EntryModel> {
    Seq::new(n, |i: int| search_record(q, i as nat))
}

/// Builds the latest-entries record of index `i`.
pub fn latest_entry(i: u32) -> (r: FeedEntry)
    ensures
        r@ == latest_record(i as nat),
{
    let idx = decimal_string(i);
    FeedEntry {
        title: String::from_str("Demo Article ").concat(idx.as_str()),
        link: String::from_str("https://example.com/article").concat(idx.as_str()),
        published: String::from_str(PUBLISHED),
        summary_ai: String::from_str("This is a test summary for item ").concat(idx.as_str()),
    }
}

/// Builds the search-result record of index `i` for `query`; the query is
/// embedded verbatim.
pub fn search_entry(query: &str, i: u32) -> (r: FeedEntry)
    ensures
        r@ == search_record(query@, i as nat),
{
    let idx = decimal_string(i);
    FeedEntry {
        title: String::from_str("Result ").concat(idx.as_str()).concat(" for ").concat(query),
        link: String::from_str("https://example.com/search/").concat(query).concat("/").concat(
            idx.as_str(),
        ),
        published: String::from_str(PUBLISHED),
        summary_ai: String::from_str("This is a search result for ").concat(query),
    }
}

/// The latest entries: exactly `limit` records, of indices `0..limit` in
/// ascending order.
pub fn latest_entries(limit: u32) -> (r: Vec<FeedEntry>)
    ensures
        r@.len() == limit,
        models(r@) == latest_records(limit as nat),
{
    let mut out: Vec<FeedEntry> = Vec::new();
    let mut i: u32 = 0;
    while i < limit
        invariant
            i <= limit,
            out@.len() == i,
            models(out@) == latest_records(i as nat),
        decreases limit - i,
    {
        let e = latest_entry(i);
        let ghost prev = out@;
        out.push(e);
        assert forall|k: int| 0 <= k < i + 1 implies #[trigger] models(out@)[k] == latest_records((i + 1) as nat)[k] by {
            if k < i {
                assert(out@[k] == prev[k]);
                assert(models(prev)[k] == latest_records(i as nat)[k]);
            }
        }
        assert(models(out@) =~= latest_records((i + 1) as nat));
        i = i + 1;
    }
    out
}

/// The results for `query`: exactly `limit` records, of indices `0..limit` in
/// ascending order.
pub fn search_entries(query: &str, limit: u32) -> (r: Vec<FeedEntry>)
    ensures
        r@.len() == limit,
        models(r@) == search_records(query@, limit as nat),
{
    let mut out: Vec<FeedEntry> = Vec::new();
    let mut i: u32 = 0;
    while i < limit
        invariant
            i <= limit,
            out@.len() == i,
            models(out@) == search_records(query@, i as nat),
        decreases limit - i,
    {
        let e = search_entry(query, i);
        let ghost prev = out@;
        out.push(e);
        assert forall|k: int| 0 <= k < i + 1 implies #[trigger] models(out@)[k] == search_records(query@, (i + 1) as nat)[k] by {
            if k < i {
                assert(out@[k] == prev[k]);
                assert(models(prev)[k] == search_records(query@, i as nat)[k]);
            }
        }
        assert(models(out@) =~= search_records(query@, (i + 1) as nat));
        i = i + 1;
    }
    out
}

} // verus!
