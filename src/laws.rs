//! Laws that hold of the generators and of the encoding.
use vstd::prelude::*;
use crate::decimal::decimal;
use crate::entry::{EntryModel, PUBLISHED, latest_record, latest_records, search_record, search_records};
use crate::json::{array_text, encoding, json_quoted, object_text, quoted};

verus! {

/// `t` occurs in `s` as a contiguous piece.
pub open spec fn contains(s: Seq<char>, t: Seq<char>) -> bool {
    exists|k: int| 0 <= k && k + t.len() <= s.len() && #[trigger] s.subrange(k, k + t.len()) == t
}

proof fn contains_suffix(a: Seq<char>, b: Seq<char>)
    ensures
        contains(a + b, b),
{
    let s = a + b;
    assert(s.subrange(a.len() as int, (a.len() + b.len()) as int) =~= b);
}

proof fn contains_whole(s: Seq<char>)
    ensures
        contains(s, s),
{
    let k: int = 0;
    assert(s.subrange(k, k + s.len()) =~= s);
}

/// A limit of `n` gives exactly `n` latest entries.
pub proof fn latest_count(n: nat)
    ensures
        latest_records(n).len() == n,
{
}

/// A limit of `n` gives exactly `n` search results, whatever the query.
pub proof fn search_count(q: Seq<char>, n: nat)
    ensures
        search_records(q, n).len() == n,
{
}

/// A limit of zero gives no records, whatever the query.
pub proof fn zero_limit_is_empty(q: Seq<char>)
    ensures
        latest_records(0) == Seq::<EntryModel>::empty(),
        search_records(q, 0) == Seq::<EntryModel>::empty(),
{
    assert(latest_records(0) =~= Seq::<EntryModel>::empty());
    assert(search_records(q, 0) =~= Seq::<EntryModel>::empty());
}

/// Latest entry `i` is titled with "Demo Article {i}", links to
/// "https://example.com/article{i}", carries the fixed timestamp, and its
/// summary holds "test summary for item {i}".
pub proof fn latest_record_fields(n: nat, i: nat)
    requires
        i < n,
    ensures
        contains(latest_records(n)[i as int].title, "Demo Article "@ + decimal(i)),
        latest_records(n)[i as int].link == "https://example.com/article"@ + decimal(i),
        latest_records(n)[i as int].published == PUBLISHED@,
        PUBLISHED@ == "2025-09-27T12:00:00Z"@,
        contains(latest_records(n)[i as int].summary_ai, "test summary for item "@ + decimal(i)),
{
    let r = latest_records(n)[i as int];
    contains_whole(r.title);
    reveal_strlit("This is a test summary for item ");
    reveal_strlit("This is a ");
    reveal_strlit("test summary for item ");
    assert("This is a test summary for item "@ =~= "This is a "@ + "test summary for item "@);
    assert(r.summary_ai =~= "This is a "@ + ("test summary for item "@ + decimal(i)));
    contains_suffix("This is a "@, "test summary for item "@ + decimal(i));
}

/// Search result `i` for `q` is titled with "Result {i} for {q}", links to
/// "https://example.com/search/{q}/{i}", carries the fixed timestamp, and its
/// summary holds "search result for {q}".
pub proof fn search_record_fields(q: Seq<char>, n: nat, i: nat)
    requires
        i < n,
    ensures
        contains(search_records(q, n)[i as int].title, "Result "@ + decimal(i) + " for "@ + q),
        search_records(q, n)[i as int].link == "https://example.com/search/"@ + q + "/"@ + decimal(
            i,
        ),
        search_records(q, n)[i as int].published == PUBLISHED@,
        contains(search_records(q, n)[i as int].summary_ai, "search result for "@ + q),
{
    let r = search_records(q, n)[i as int];
    contains_whole(r.title);
    reveal_strlit("This is a search result for ");
    reveal_strlit("This is a ");
    reveal_strlit("search result for ");
    assert("This is a search result for "@ =~= "This is a "@ + "search result for "@);
    assert(r.summary_ai =~= "This is a "@ + ("search result for "@ + q));
    contains_suffix("This is a "@, "search result for "@ + q);
}

/// The JSON object that encodes record `e`.
pub open spec fn record_object(e: EntryModel) -> Seq<char> {
    object_text(quoted(e))
}

/// The encoding is a JSON array with one element per record, in the records'
/// order, and element `i` is an object with exactly the keys `title`, `link`,
/// `published` and `summary_ai`, in that order, whose values are the JSON
/// string literals of record `i`'s fields.
pub proof fn encoding_is_array_of_records(es: Seq<EntryModel>)
    ensures
        encoding(es) == array_text(Seq::new(es.len(), |i: int| record_object(es[i]))),
        forall|i: int|
            0 <= i < es.len() ==> #[trigger] record_object(es[i]) == "{\"title\":"@ + json_quoted(
                es[i].title,
            ) + ",\"link\":"@ + json_quoted(es[i].link) + ",\"published\":"@ + json_quoted(
                es[i].published,
            ) + ",\"summary_ai\":"@ + json_quoted(es[i].summary_ai) + "}"@,
{
    let a = es.map_values(|e: EntryModel| quoted(e)).map_values(|q: EntryModel| object_text(q));
    assert(a =~= Seq::new(es.len(), |i: int| record_object(es[i])));
}

/// Appending a record to a non-empty sequence appends its object as the last
/// element of the JSON array; to an empty one, it makes it the only element.
pub proof fn encoding_push(es: Seq<EntryModel>, e: EntryModel)
    ensures
        es.len() == 0 ==> encoding(es.push(e)) == "["@ + record_object(e) + "]"@,
        es.len() > 0 ==> encoding(es.push(e)) == encoding(es).drop_last() + ","@ + record_object(e)
            + "]"@,
{
    let f = |x: EntryModel| quoted(x);
    let g = |q: EntryModel| object_text(q);
    let a = es.map_values(f).map_values(g);
    let b = es.push(e).map_values(f).map_values(g);
    assert(b =~= a.push(record_object(e)));
    assert(b.drop_last() =~= a);
    reveal_strlit("]");
    if es.len() == 0 {
        assert(encoding(es.push(e)) =~= "["@ + record_object(e) + "]"@);
    } else {
        assert(encoding(es) == "["@ + crate::json::comma_joined(a) + "]"@);
        assert(encoding(es).drop_last() =~= "["@ + crate::json::comma_joined(a));
        assert(encoding(es.push(e)) =~= encoding(es).drop_last() + ","@ + record_object(e) + "]"@);
    }
}

/// Latest entries come out in ascending index order: raising the limit from
/// `n` to `n + 1` adds record `n` as the last element of the array.
pub proof fn latest_encoding_in_order(n: nat)
    ensures
        n == 0 ==> encoding(latest_records(n + 1)) == "["@ + record_object(latest_record(n)) + "]"@,
        n > 0 ==> encoding(latest_records(n + 1)) == encoding(latest_records(n)).drop_last()
            + ","@ + record_object(latest_record(n)) + "]"@,
{
    assert(latest_records(n + 1) =~= latest_records(n).push(latest_record(n)));
    encoding_push(latest_records(n), latest_record(n));
}

/// Search results come out in ascending index order: raising the limit from
/// `n` to `n + 1` adds record `n` as the last element of the array.
pub proof fn search_encoding_in_order(q: Seq<char>, n: nat)
    ensures
        n == 0 ==> encoding(search_records(q, n + 1)) == "["@ + record_object(search_record(q, n))
            + "]"@,
        n > 0 ==> encoding(search_records(q, n + 1)) == encoding(search_records(q, n)).drop_last()
            + ","@ + record_object(search_record(q, n)) + "]"@,
{
    assert(search_records(q, n + 1) =~= search_records(q, n).push(search_record(q, n)));
    encoding_push(search_records(q, n), search_record(q, n));
}

/// A smaller limit gives a prefix of the latest entries: each record depends
/// on its index alone.
pub proof fn latest_smaller_limit_is_prefix(m: nat, n: nat)
    requires
        m <= n,
    ensures
        latest_records(n).subrange(0, m as int) == latest_records(m),
{
    assert(latest_records(n).subrange(0, m as int) =~= latest_records(m));
}

/// A smaller limit gives a prefix of the search results for the same query.
pub proof fn search_smaller_limit_is_prefix(q: Seq<char>, m: nat, n: nat)
    requires
        m <= n,
    ensures
        search_records(q, n).subrange(0, m as int) == search_records(q, m),
{
    assert(search_records(q, n).subrange(0, m as int) =~= search_records(q, m));
}

} // verus!
