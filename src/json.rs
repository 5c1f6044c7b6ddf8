//! JSON: values carried through as they are, string literals, and objects of
//! strings.

use vstd::prelude::*;
use crate::labels::pairs_view;

verus! {

/// A JSON document; the controller carries it without reading it.
#[verifier::external_type_specification]
#[verifier::external_body]
pub struct ExValue(serde_json::Value);

/// The JSON string literal that `serde_json` writes for a string.
pub uninterp spec fn json_quoted(s: Seq<char>) -> Seq<char>;

/// Relies on `serde_json::to_string` on a `str`: the JSON string literal for `s`.
/// It writes into a `Vec`, which cannot fail, so the result is always `Ok`.
#[verifier::external_body]
pub(crate) fn quote_json(s: &str) -> (r: String)
    ensures
        r@ == json_quoted(s@),
{
    serde_json::to_string(s).unwrap_or_default()
}

/// The entries of a JSON object of strings as `serde_json` reads it into a
/// `BTreeMap<String, String>`, in key order; none where the text is not such an object.
pub uninterp spec fn json_string_map(s: Seq<char>) -> Option<Seq<(Seq<char>, Seq<char>)>>;

/// Relies on `serde_json::from_str` into a `BTreeMap<String, String>`: the entries
/// of the object, or the parser's message.
#[verifier::external_body]
pub(crate) fn parse_string_map(s: &str) -> (r: Result<Vec<(String, String)>, String>)
    ensures
        match r {
            Ok(v) => json_string_map(s@) == Some(pairs_view(v@)),
            Err(_) => json_string_map(s@) is None,
        },
{
    serde_json::from_str::<std::collections::BTreeMap<String, String>>(s)
        .map(|m| m.into_iter().collect())
        .map_err(|e| e.to_string())
}

/// One member of a JSON object of strings.
pub open spec fn json_member(kv: (Seq<char>, Seq<char>)) -> Seq<char> {
    json_quoted(kv.0) + seq![':'] + json_quoted(kv.1)
}

/// The members of a JSON object of strings, separated by commas.
pub open spec fn json_members(kv: Seq<(Seq<char>, Seq<char>)>) -> Seq<char>
    decreases kv.len(),
{
    if kv.len() == 0 {
        Seq::empty()
    } else if kv.len() == 1 {
        json_member(kv[0])
    } else {
        json_members(kv.drop_last()) + seq![','] + json_member(kv.last())
    }
}

/// The JSON object of strings with the entries `kv`, in their order.
pub open spec fn json_object(kv: Seq<(Seq<char>, Seq<char>)>) -> Seq<char> {
    seq!['{'] + json_members(kv) + seq!['}']
}

/// The JSON object of strings with the entries `kv`, in their order.
pub fn string_map_json(kv: &Vec<(String, String)>) -> (r: String)
    ensures
        r@ == json_object(pairs_view(kv@)),
{
    let ghost kvs = pairs_view(kv@);
    let mut members = String::new();
    let mut i: usize = 0;
    while i < kv.len()
        invariant
            i <= kv@.len(),
            kvs == pairs_view(kv@),
            members@ == json_members(kvs.subrange(0, i as int)),
        decreases kv.len() - i,
    {
        let k = quote_json(kv[i].0.as_str());
        let v = quote_json(kv[i].1.as_str());
        let ghost before = members@;
        if i > 0 {
            members.append(",");
        }
        members.append(k.as_str());
        members.append(":");
        members.append(v.as_str());
        proof {
            reveal_strlit(",");
            reveal_strlit(":");
            let s = kvs.subrange(0, i + 1);
            assert(s.drop_last() =~= kvs.subrange(0, i as int));
            assert(s.last() == kvs[i as int]);
            assert(kvs[i as int] == (kv@[i as int].0@, kv@[i as int].1@));
            if i > 0 {
                assert(members@ =~= before + seq![','] + json_member(kvs[i as int]));
            } else {
                assert(s.len() == 1);
                assert(before.len() == 0);
                assert(members@ =~= json_member(s[0]));
            }
        }
        i = i + 1;
    }
    assert(kvs.subrange(0, kvs.len() as int) =~= kvs);
    proof {
        reveal_strlit("{");
        reveal_strlit("}");
    }
    let mut r = String::from_str("{");
    r.append(members.as_str());
    r.append("}");
    assert(r@ =~= json_object(kvs));
    r
}

} // verus!
