use rss_search::decimal::decimal_string;
use rss_search::entry::{latest_entries, latest_entry, search_entries, search_entry, PUBLISHED};
use rss_search::json::{encode_entries, frame_quoted, object_string, quote_entry};
use rss_search::{FeedEntry, RssSearch};
use serde_json::Value;

fn decode(text: &str) -> Vec<Value> {
    match serde_json::from_str::<Value>(text).expect("valid JSON") {
        Value::Array(items) => items,
        other => panic!("not an array: {}", other),
    }
}

fn field<'a>(v: &'a Value, key: &str) -> &'a str {
    v.get(key).and_then(|f| f.as_str()).expect("string field")
}

fn entry(title: &str, link: &str, published: &str, summary_ai: &str) -> FeedEntry {
    FeedEntry {
        title: title.to_string(),
        link: link.to_string(),
        published: published.to_string(),
        summary_ai: summary_ai.to_string(),
    }
}

#[test]
fn latest_two_records_text() {
    let text = RssSearch::rss_latest(2).unwrap();
    assert_eq!(
        text,
        "[{\"title\":\"Demo Article 0\",\"link\":\"https://example.com/article0\",\
         \"published\":\"2025-09-27T12:00:00Z\",\"summary_ai\":\"This is a test summary for item 0\"},\
         {\"title\":\"Demo Article 1\",\"link\":\"https://example.com/article1\",\
         \"published\":\"2025-09-27T12:00:00Z\",\"summary_ai\":\"This is a test summary for item 1\"}]"
    );
}

#[test]
fn latest_two_records_decoded() {
    let items = decode(&RssSearch::rss_latest(2).unwrap());
    assert_eq!(items.len(), 2);
    for (i, item) in items.iter().enumerate() {
        assert_eq!(field(item, "title"), format!("Demo Article {}", i));
        assert_eq!(field(item, "link"), format!("https://example.com/article{}", i));
        assert_eq!(field(item, "published"), "2025-09-27T12:00:00Z");
        assert_eq!(field(item, "summary_ai"), format!("This is a test summary for item {}", i));
    }
}

#[test]
fn search_rust_one_record() {
    let text = RssSearch::rss_search("rust".to_string(), 1).unwrap();
    assert_eq!(
        text,
        "[{\"title\":\"Result 0 for rust\",\"link\":\"https://example.com/search/rust/0\",\
         \"published\":\"2025-09-27T12:00:00Z\",\"summary_ai\":\"This is a search result for rust\"}]"
    );
    let items = decode(&text);
    assert_eq!(items.len(), 1);
    assert_eq!(field(&items[0], "title"), "Result 0 for rust");
    assert_eq!(field(&items[0], "link"), "https://example.com/search/rust/0");
    assert_eq!(field(&items[0], "summary_ai"), "This is a search result for rust");
}

#[test]
fn zero_limit_gives_empty_array() {
    assert_eq!(RssSearch::rss_latest(0).unwrap(), "[]");
    assert_eq!(RssSearch::rss_search("anything".to_string(), 0).unwrap(), "[]");
    assert_eq!(RssSearch::rss_search(String::new(), 0).unwrap(), "[]");
    assert!(latest_entries(0).is_empty());
    assert!(search_entries("q", 0).is_empty());
}

#[test]
fn limit_gives_that_many_records() {
    assert_eq!(latest_entries(7).len(), 7);
    assert_eq!(search_entries("news", 13).len(), 13);
    assert_eq!(decode(&RssSearch::rss_latest(25).unwrap()).len(), 25);
    assert_eq!(decode(&RssSearch::rss_search("a b".to_string(), 3).unwrap()).len(), 3);
}

#[test]
fn latest_record_fields_multi_digit() {
    let e = latest_entry(123);
    assert_eq!(e.title, "Demo Article 123");
    assert_eq!(e.link, "https://example.com/article123");
    assert_eq!(e.published, "2025-09-27T12:00:00Z");
    assert_eq!(e.summary_ai, "This is a test summary for item 123");
    assert!(e.summary_ai.contains("test summary for item 123"));
}

#[test]
fn search_record_fields_multi_digit() {
    let e = search_entry("verus", 40);
    assert_eq!(e.title, "Result 40 for verus");
    assert_eq!(e.link, "https://example.com/search/verus/40");
    assert_eq!(e.published, PUBLISHED);
    assert_eq!(e.summary_ai, "This is a search result for verus");
}

#[test]
fn query_embedded_verbatim() {
    let e = search_entry("a/b?c=d&e", 2);
    assert_eq!(e.link, "https://example.com/search/a/b?c=d&e/2");
    let e = search_entry("", 0);
    assert_eq!(e.title, "Result 0 for ");
    assert_eq!(e.link, "https://example.com/search//0");
    assert_eq!(e.summary_ai, "This is a search result for ");
}

#[test]
fn records_in_ascending_order_round_trip() {
    let entries = latest_entries(12);
    let items = decode(&RssSearch::rss_latest(12).unwrap());
    assert_eq!(items.len(), entries.len());
    for (e, item) in entries.iter().zip(items.iter()) {
        assert_eq!(field(item, "title"), e.title);
        assert_eq!(field(item, "link"), e.link);
        assert_eq!(field(item, "published"), e.published);
        assert_eq!(field(item, "summary_ai"), e.summary_ai);
    }
    let results = search_entries("go", 11);
    let items = decode(&RssSearch::rss_search("go".to_string(), 11).unwrap());
    for (i, (e, item)) in results.iter().zip(items.iter()).enumerate() {
        assert_eq!(field(item, "title"), format!("Result {} for go", i));
        assert_eq!(field(item, "link"), e.link);
    }
}

#[test]
fn objects_have_exactly_four_keys() {
    let items = decode(&RssSearch::rss_search("x".to_string(), 4).unwrap());
    for item in items.iter() {
        let obj = item.as_object().expect("object");
        assert_eq!(obj.len(), 4);
        for key in ["title", "link", "published", "summary_ai"] {
            assert!(obj.contains_key(key));
        }
    }
}

#[test]
fn query_with_quotes_is_escaped() {
    let query = "say \"hi\"\\\n\tnow";
    let text = RssSearch::rss_search(query.to_string(), 1).unwrap();
    assert!(text.contains("say \\\"hi\\\"\\\\\\n\\tnow"));
    let items = decode(&text);
    assert_eq!(field(&items[0], "title"), format!("Result 0 for {}", query));
    assert_eq!(field(&items[0], "summary_ai"), format!("This is a search result for {}", query));
}

#[test]
fn decimal_rendering() {
    assert_eq!(decimal_string(0), "0");
    assert_eq!(decimal_string(9), "9");
    assert_eq!(decimal_string(10), "10");
    assert_eq!(decimal_string(1005), "1005");
    assert_eq!(decimal_string(u32::MAX), "4294967295");
}

#[test]
fn quote_entry_escapes_each_field() {
    let q = quote_entry(&entry("a\"b", "l", "", "\\")).unwrap();
    assert_eq!(q.title, "\"a\\\"b\"");
    assert_eq!(q.link, "\"l\"");
    assert_eq!(q.published, "\"\"");
    assert_eq!(q.summary_ai, "\"\\\\\"");
}

#[test]
fn object_string_keeps_key_order() {
    let o = object_string(&entry("1", "2", "3", "4"));
    assert_eq!(o, "{\"title\":1,\"link\":2,\"published\":3,\"summary_ai\":4}");
}

#[test]
fn frame_quoted_joins_with_commas() {
    assert_eq!(frame_quoted(&Vec::new()), "[]");
    let one = vec![entry("t", "l", "p", "s")];
    assert_eq!(frame_quoted(&one), "[{\"title\":t,\"link\":l,\"published\":p,\"summary_ai\":s}]");
    let two = vec![entry("a", "b", "c", "d"), entry("e", "f", "g", "h")];
    assert_eq!(
        frame_quoted(&two),
        "[{\"title\":a,\"link\":b,\"published\":c,\"summary_ai\":d},\
         {\"title\":e,\"link\":f,\"published\":g,\"summary_ai\":h}]"
    );
}

#[test]
fn encode_entries_of_given_records() {
    assert_eq!(encode_entries(&Vec::new()).unwrap(), "[]");
    let es = vec![entry("T", "L", "P", "S")];
    assert_eq!(
        encode_entries(&es).unwrap(),
        "[{\"title\":\"T\",\"link\":\"L\",\"published\":\"P\",\"summary_ai\":\"S\"}]"
    );
}

#[test]
fn smaller_limit_gives_prefix_and_same_text() {
    assert_eq!(RssSearch::rss_latest(6).unwrap(), RssSearch::rss_latest(6).unwrap());
    let small = decode(&RssSearch::rss_latest(3).unwrap());
    let large = decode(&RssSearch::rss_latest(9).unwrap());
    assert_eq!(small[..], large[..3]);
    let small = decode(&RssSearch::rss_search("q".to_string(), 2).unwrap());
    let large = decode(&RssSearch::rss_search("q".to_string(), 5).unwrap());
    assert_eq!(small[..], large[..2]);
}
