//! Trusted parsing of JSON text into the library's document model.
//!
//! Both platforms answer with JSON bodies. serde_json parses them; the one
//! wrapper here mirrors the parsed value into `DocNode`, and every walk over
//! the document is verified code.

use vstd::prelude::*;
use crate::document::DocNode;

verus! {

#[verifier::external_type_specification]
#[verifier::external_body]
pub struct ExJsonValue(serde_json::Value);

/// Whether serde_json accepts the text as a JSON document.
pub uninterp spec fn json_parses(s: Seq<char>) -> bool;

/// The document that the text parses to, mirrored into the library's node
/// type; `None` exactly where `json_parses` does not hold.
pub uninterp spec fn json_doc_of(s: Seq<char>) -> Option<DocNode>;

/// Relies on serde_json's Value variants: mirrors a parsed value into the
/// library's node, one arm per variant, moving the fields. Object entries
/// keep the order serde_json hands out (sorted, duplicate-free keys);
/// numbers become their decimal text.
#[verifier::external_body]
fn node_of_json(v: &serde_json::Value) -> DocNode {
    match v {
        serde_json::Value::Null => DocNode::Null,
        serde_json::Value::Bool(b) => DocNode::Bool(*b),
        serde_json::Value::Number(n) => DocNode::Num(n.to_string()),
        serde_json::Value::String(s) => DocNode::Str(s.clone()),
        serde_json::Value::Array(a) => DocNode::Arr(a.iter().map(node_of_json).collect()),
        serde_json::Value::Object(o) => DocNode::Obj(
            o.iter().map(|(k, x)| (k.clone(), node_of_json(x))).collect(),
        ),
    }
}

/// Relies on serde_json::from_str: deterministic in the text, `Some` exactly
/// when the text is a valid JSON document; the result is that document.
#[verifier::external_body]
pub(crate) fn json_parse(s: &str) -> (r: Option<DocNode>)
    ensures
        r is Some == json_parses(s@),
        r == json_doc_of(s@),
{
    serde_json::from_str::<serde_json::Value>(s).ok().map(|v| node_of_json(&v))
}

} // verus!
