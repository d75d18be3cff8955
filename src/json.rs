//! Reading a JSON object through serde_json, down to the plain values that
//! the decoders of this crate look at.

use vstd::prelude::*;

verus! {

/// The members of a JSON object as this crate sees them: each key, with the
/// member's text where its value is a JSON string and `None` otherwise.
pub type Members = Seq<(Seq<char>, Option<Seq<char>>)>;

/// What serde_json reads from `b` as one JSON object: `None` where the bytes
/// are not one object; else its members in the order its map holds them.
pub uninterp spec fn json_object_members(b: Seq<u8>) -> Option<Members>;

/// The text of the first member named `key`, or `None` where there is no
/// such member or its value is not a string.
pub open spec fn member_text(ms: Members, key: Seq<char>) -> Option<Seq<char>>
    decreases ms.len(),
{
    if ms.len() == 0 {
        None
    } else if ms[0].0 == key {
        ms[0].1
    } else {
        member_text(ms.drop_first(), key)
    }
}

/// Relies on serde_json::from_slice into a `serde_json::Map`: it fails where
/// the bytes are not one JSON object, and otherwise yields that object's
/// members; each value is kept only where it is a `Value::String`.
#[verifier::external_body]
pub(crate) fn parse_object(b: &[u8]) -> (r: Option<Vec<(String, Option<String>)>>)
    ensures
        r is Some <==> json_object_members(b@) is Some,
        r matches Some(ms) ==> json_object_members(b@) == Some(ms.deep_view()),
{
    match serde_json::from_slice::<serde_json::Map<String, serde_json::Value>>(b) {
        Ok(m) => Some(
            m.into_iter().map(|(k, v)| match v {
                serde_json::Value::String(s) => (k, Some(s)),
                _ => (k, None),
            }).collect(),
        ),
        Err(_) => None,
    }
}

/// Looks up the text of the member named `key`.
pub fn find_member(ms: &Vec<(String, Option<String>)>, key: &String) -> (r: Option<String>)
    ensures
        r.deep_view() == member_text(ms.deep_view(), key@),
{
    let ghost whole = ms.deep_view();
    let mut i: usize = 0;
    assert(whole.subrange(0, whole.len() as int) =~= whole);
    while i < ms.len()
        invariant
            0 <= i <= ms.len(),
            whole == ms.deep_view(),
            member_text(whole, key@) == member_text(whole.subrange(i as int, whole.len() as int), key@),
        decreases ms.len() - i,
    {
        let ghost rest = whole.subrange(i as int, whole.len() as int);
        assert(rest[0] == ms[i as int].deep_view());
        if ms[i].0 == *key {
            return match &ms[i].1 {
                Some(s) => Some(s.clone()),
                None => None,
            };
        }
        assert(rest.drop_first() =~= whole.subrange(i + 1, whole.len() as int));
        i += 1;
    }
    None
}

} // verus!
