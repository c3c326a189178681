//! JSON encoding of feed records: an array of objects whose keys are
//! `title`, `link`, `published` and `summary_ai`, in that order.
use vstd::prelude::*;
use vstd::string::*;
use crate::entry::{EntryModel, FeedEntry, models};

verus! {

#[verifier::external_type_specification]
#[verifier::external_body]
pub struct ExJsonError(serde_json::Error);

/// The JSON string literal (quotes and escapes included) that serde_json
/// writes for the text `s`.
pub uninterp spec fn json_quoted(s: Seq<char>) -> Seq<char>;

/// Relies on `serde_json::to_string` on a `str`: it writes serde_json's
/// string literal for `s`, which depends on `s` alone, into a `Vec<u8>`; the
/// only error path is the writer's, and writing to a `Vec` does not fail.
#[verifier::external_body]
fn json_string(s: &str) -> (r: Result<String, serde_json::Error>)
    ensures
        r is Ok,
        r matches Ok(t) ==> t@ == json_quoted(s@),
{
    serde_json::to_string(s)
}

/// Why an encoding failed.
#[derive(Debug, Clone, Copy, PartialEq, Eq, Structural)]
pub enum EncodeError {
    /// The JSON serializer refused a field. serde_json does not refuse text,
    /// so the encoders of this library never return it.
    Serialization,
}

/// A record whose fields are replaced by their JSON string literals.
pub open spec fn quoted(e: EntryModel) -> EntryModel {
    EntryModel {
        title: json_quoted(e.title),
        link: json_quoted(e.link),
        published: json_quoted(e.published),
        summary_ai: json_quoted(e.summary_ai),
    }
}

/// The JSON object of a record whose fields are already JSON string
/// literals.
pub open spec fn object_text(q: EntryModel) -> Seq<char> {
    "{\"title\":"@ + q.title + ",\"link\":"@ + q.link + ",\"published\":"@ + q.published
        + ",\"summary_ai\":"@ + q.summary_ai + "}"@
}

/// The texts joined with a comma between each two neighbours.
pub open spec fn comma_joined(parts: Seq<Seq<char>>) -> Seq<char>
    decreases parts.len(),
{
    if parts.len() == 0 {
        Seq::empty()
    } else if parts.len() == 1 {
        parts[0]
    } else {
        comma_joined(parts.drop_last()) + ","@ + parts.last()
    }
}

/// The JSON array whose elements are the texts `parts`, in order.
pub open spec fn array_text(parts: Seq<Seq<char>>) -> Seq<char> {
    "["@ + comma_joined(parts) + "]"@
}

/// The JSON objects of records whose fields are already string literals.
pub open spec fn objects(qs: Seq<EntryModel>) -> Seq<Seq<char>> {
    qs.map_values(|q: EntryModel| object_text(q))
}

/// The JSON text of a sequence of records.
pub open spec fn encoding(es: Seq<EntryModel>) -> Seq<char> {
    array_text(objects(es.map_values(|e: EntryModel| quoted(e))))
}

/// Turns each field of `e` into its JSON string literal; never fails.
pub fn quote_entry(e: &FeedEntry) -> (r: Result<FeedEntry, EncodeError>)
    ensures
        r is Ok,
        r matches Ok(q) ==> q@ == quoted(e@),
{
    let title = match json_string(e.title.as_str()) {
        Ok(t) => t,
        Err(_) => return Err(EncodeError::Serialization),
    };
    let link = match json_string(e.link.as_str()) {
        Ok(t) => t,
        Err(_) => return Err(EncodeError::Serialization),
    };
    let published = match json_string(e.published.as_str()) {
        Ok(t) => t,
        Err(_) => return Err(EncodeError::Serialization),
    };
    let summary_ai = match json_string(e.summary_ai.as_str()) {
        Ok(t) => t,
        Err(_) => return Err(EncodeError::Serialization),
    };
    Ok(FeedEntry { title, link, published, summary_ai })
}

/// The JSON object of a record whose fields are already string literals.
pub fn object_string(q: &FeedEntry) -> (r: String)
    ensures
        r@ == object_text(q@),
{
    let mut s = String::from_str("{\"title\":");
    s.append(q.title.as_str());
    s.append(",\"link\":");
    s.append(q.link.as_str());
    s.append(",\"published\":");
    s.append(q.published.as_str());
    s.append(",\"summary_ai\":");
    s.append(q.summary_ai.as_str());
    s.append("}");
    s
}

/// The JSON array of the records `quoted`, whose fields are already JSON
/// string literals: their objects in the same order, comma-separated.
pub fn frame_quoted(quoted: &Vec<FeedEntry>) -> (r: String)
    ensures
        r@ == array_text(objects(models(quoted@))),
{
    let ghost parts = objects(models(quoted@));
    let mut s = String::from_str("[");
    let mut i: usize = 0;
    proof {
        assert(parts.take(0) =~= Seq::<Seq<char>>::empty());
        assert(s@ =~= "["@ + comma_joined(parts.take(0)));
    }
    while i < quoted.len()
        invariant
            i <= quoted@.len(),
            parts == objects(models(quoted@)),
            s@ == "["@ + comma_joined(parts.take(i as int)),
        decreases quoted@.len() - i,
    {
        if i > 0 {
            s.append(",");
        }
        let obj = object_string(&quoted[i]);
        s.append(obj.as_str());
        proof {
            let next = parts.take(i + 1);
            assert(next.drop_last() =~= parts.take(i as int));
            assert(next.last() == obj@);
            assert(s@ =~= "["@ + comma_joined(next));
        }
        i = i + 1;
    }
    s.append("]");
    proof {
        assert(parts.take(quoted@.len() as int) =~= parts);
    }
    s
}

/// Encodes `entries` as a JSON array of objects, one per record and in the
/// same order; never fails.
pub fn encode_entries(entries: &Vec<FeedEntry>) -> (r: Result<String, EncodeError>)
    ensures
        r is Ok,
        r matches Ok(t) ==> t@ == encoding(models(entries@)),
{
    let mut qs: Vec<FeedEntry> = Vec::new();
    let mut i: usize = 0;
    while i < entries.len()
        invariant
            i <= entries@.len(),
            qs@.len() == i,
            models(qs@) == models(entries@).take(i as int).map_values(|e: EntryModel| quoted(e)),
        decreases entries@.len() - i,
    {
        let q = match quote_entry(&entries[i]) {
            Ok(q) => q,
            Err(err) => return Err(err),
        };
        let ghost prev = qs@;
        qs.push(q);
        assert forall|k: int| 0 <= k < i + 1 implies #[trigger] models(qs@)[k]
            == models(entries@).take(i + 1).map_values(|e: EntryModel| quoted(e))[k] by {
            if k < i {
                assert(qs@[k] == prev[k]);
                assert(models(prev)[k] == models(entries@).take(i as int).map_values(
                    |e: EntryModel| quoted(e),
                )[k]);
            }
        }
        assert(models(qs@) =~= models(entries@).take(i + 1).map_values(|e: EntryModel| quoted(e)));
        i = i + 1;
    }
    assert(models(entries@).take(entries@.len() as int) =~= models(entries@));
    Ok(frame_quoted(&qs))
}

} // verus!
