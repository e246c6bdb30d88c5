use crate::text::opt_text;
use vstd::prelude::*;

verus! {

/// Names what the `serde_json` crate finds in a text under a key: where the text
/// is a JSON object with such a member, the member's value written as compact
/// JSON; else nothing.
pub uninterp spec fn json_member(text: Seq<char>, key: Seq<char>) -> Option<Seq<char>>;

/// Names what the `serde_json` crate reads under a key as an unsigned number:
/// where the text is a JSON object whose member of that name is an integer from
/// 0 to the largest `u64`, that integer; else nothing.
pub uninterp spec fn json_member_u64(text: Seq<char>, key: Seq<char>) -> Option<u64>;

/// Names the complaint of the `serde_json` crate about a text that is no JSON
/// value; nothing where the text is one.
pub uninterp spec fn json_complaint(text: Seq<char>) -> Option<Seq<char>>;

/// Names what the `serde_json` crate reads in a text as a map from strings to
/// strings: its entries ordered by key, of two entries with one key the later;
/// or the crate's complaint where the text is no such map.
pub uninterp spec fn json_text_entries(text: Seq<char>) -> Result<
    Seq<(Seq<char>, Seq<char>)>,
    Seq<char>,
>;

/// Names what the `serde_json` crate reads in a text as a map from strings to
/// signed numbers: its entries ordered by key; or the crate's complaint.
pub uninterp spec fn json_number_entries(text: Seq<char>) -> Result<
    Seq<(Seq<char>, i64)>,
    Seq<char>,
>;

/// `serde_json::from_str` into a `Value`, then `Value::get` and the value's
/// `to_string`. The contract names the result and claims nothing more.
#[verifier::external_body]
pub(crate) fn member_of(text: &str, key: &str) -> (r: Option<String>)
    ensures
        opt_text(r) == json_member(text@, key@),
{
    let value: serde_json::Value = serde_json::from_str(text).ok()?;
    value.get(key).map(|m| m.to_string())
}

/// `serde_json::from_str` into a `Value`, then `Value::get` and `Value::as_u64`.
/// The contract names the result and claims nothing more.
#[verifier::external_body]
pub(crate) fn member_u64_of(text: &str, key: &str) -> (r: Option<u64>)
    ensures
        r == json_member_u64(text@, key@),
{
    let value: serde_json::Value = serde_json::from_str(text).ok()?;
    value.get(key).and_then(|m| m.as_u64())
}

/// `serde_json::from_str` into a `Value`: the text of the error, if there is one.
/// The contract names the result and claims nothing more.
#[verifier::external_body]
pub(crate) fn complaint_of(text: &str) -> (r: Option<String>)
    ensures
        opt_text(r) == json_complaint(text@),
{
    serde_json::from_str::<serde_json::Value>(text).err().map(|e| e.to_string())
}

/// What a vector of pairs of strings holds.
pub open spec fn text_pairs(v: Seq<(String, String)>) -> Seq<(Seq<char>, Seq<char>)> {
    Seq::new(v.len(), |i: int| (v[i].0@, v[i].1@))
}

/// What a vector of strings with numbers holds.
pub open spec fn number_pairs(v: Seq<(String, i64)>) -> Seq<(Seq<char>, i64)> {
    Seq::new(v.len(), |i: int| (v[i].0@, v[i].1))
}

/// `serde_json::from_str` into a `BTreeMap<String, String>`, handed out as the
/// pairs of the map in the order of their keys. The contract names the result
/// and claims nothing more.
#[verifier::external_body]
pub(crate) fn text_entries_of(text: &str) -> (r: Result<Vec<(String, String)>, String>)
    ensures
        match r {
            Ok(v) => json_text_entries(text@) == Ok::<_, Seq<char>>(text_pairs(v@)),
            Err(e) => json_text_entries(text@) == Err::<Seq<(Seq<char>, Seq<char>)>, _>(e@),
        },
{
    serde_json::from_str::<std::collections::BTreeMap<String, String>>(text)
        .map(|m| m.into_iter().collect())
        .map_err(|e| e.to_string())
}

/// `serde_json::from_str` into a `BTreeMap<String, i64>`, handed out as the pairs
/// of the map in the order of their keys. The contract names the result and
/// claims nothing more.
#[verifier::external_body]
pub(crate) fn number_entries_of(text: &str) -> (r: Result<Vec<(String, i64)>, String>)
    ensures
        match r {
            Ok(v) => json_number_entries(text@) == Ok::<_, Seq<char>>(number_pairs(v@)),
            Err(e) => json_number_entries(text@) == Err::<Seq<(Seq<char>, i64)>, _>(e@),
        },
{
    serde_json::from_str::<std::collections::BTreeMap<String, i64>>(text)
        .map(|m| m.into_iter().collect())
        .map_err(|e| e.to_string())
}

} // verus!
