//! One level of a JSON document, as the identity lookup reads it.
use vstd::prelude::*;

verus! {

#[verifier::external_type_specification]
#[verifier::external_body]
pub struct ExJsonError(serde_json::Error);

/// The top level of a parsed JSON text.
///
/// An object keeps each member as the JSON text of its value, so that a
/// lookup along a path reads one level at a time.
pub enum JsonNode {
    Object(Vec<(String, String)>),
    Text(String),
    Other,
}

/// What a `JsonNode` holds, in plain values.
pub enum NodeModel {
    Object(Seq<(Seq<char>, Seq<char>)>),
    Text(Seq<char>),
    Other,
}

impl JsonNode {
    pub open spec fn model(&self) -> NodeModel {
        match self {
            JsonNode::Object(members) => NodeModel::Object(
                members@.map_values(|m: (String, String)| (m.0@, m.1@)),
            ),
            JsonNode::Text(s) => NodeModel::Text(s@),
            JsonNode::Other => NodeModel::Other,
        }
    }
}

/// The top level of the JSON text `text`, or `None` where it is not JSON.
pub uninterp spec fn json_node_of(text: Seq<char>) -> Option<NodeModel>;

/// Relies on `serde_json::from_str` to parse `text`, and on the `Display` of
/// `serde_json::Value` to hand back each member of an object as JSON text.
/// The result depends on the text alone.
#[verifier::external_body]
pub(crate) fn read_json(text: &str) -> (r: Result<JsonNode, serde_json::Error>)
    ensures
        r is Ok <==> json_node_of(text@) is Some,
        r is Ok ==> json_node_of(text@) == Some(r->Ok_0.model()),
{
    match serde_json::from_str::<serde_json::Value>(text) {
        Ok(serde_json::Value::Object(m)) => Ok(
            JsonNode::Object(m.into_iter().map(|(k, v)| (k, v.to_string())).collect()),
        ),
        Ok(serde_json::Value::String(s)) => Ok(JsonNode::Text(s)),
        Ok(_) => Ok(JsonNode::Other),
        Err(e) => Err(e),
    }
}

/// The text of the first member named `key`, if any.
pub open spec fn member_of(members: Seq<(Seq<char>, Seq<char>)>, key: Seq<char>) -> Option<Seq<char>> {
    if exists|i: int| 0 <= i < members.len() && members[i].0 == key {
        let i = choose|i: int|
            0 <= i < members.len() && members[i].0 == key && forall|j: int|
                0 <= j < i ==> members[j].0 != key;
        Some(members[i].1)
    } else {
        None
    }
}

/// Finds the member named `key` among `members`.
pub fn find_member(members: &Vec<(String, String)>, key: &str) -> (r: Option<String>)
    ensures
        r matches Some(t) ==> member_of(members@.map_values(|m: (String, String)| (m.0@, m.1@)), key@) == Some(t@),
        r is None ==> member_of(members@.map_values(|m: (String, String)| (m.0@, m.1@)), key@) is None,
{
    let ghost ms = members@.map_values(|m: (String, String)| (m.0@, m.1@));
    let wanted = key.to_owned();
    let mut i: usize = 0;
    while i < members.len()
        invariant
            i <= members.len(),
            ms == members@.map_values(|m: (String, String)| (m.0@, m.1@)),
            wanted@ == key@,
            forall|j: int| 0 <= j < i ==> ms[j].0 != key@,
        decreases members.len() - i,
    {
        assert(ms[i as int] == (members@[i as int].0@, members@[i as int].1@));
        if members[i].0 == wanted {
            proof {
                assert(ms[i as int].0 == key@);
                let k = choose|k: int|
                    0 <= k < ms.len() && ms[k].0 == key@ && forall|j: int|
                        0 <= j < k ==> ms[j].0 != key@;
                assert(0 <= k < ms.len() && ms[k].0 == key@ && forall|j: int|
                        0 <= j < k ==> ms[j].0 != key@) by {
                    assert(0 <= i < ms.len() && ms[i as int].0 == key@ && forall|j: int|
                        0 <= j < i ==> ms[j].0 != key@);
                }
                assert(k == i as int);
            }
            return Some(members[i].1.clone());
        }
        i = i + 1;
    }
    None
}

} // verus!
