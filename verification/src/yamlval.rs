//! Trusted parsing of YAML text into the library's document model.
//!
//! The configuration file is YAML. serde_yaml parses it; the one wrapper
//! here mirrors the parsed value into `DocNode`, and the verified resolver
//! does everything else.

use vstd::prelude::*;
use crate::document::DocNode;

verus! {

#[verifier::external_type_specification]
#[verifier::external_body]
pub struct ExYamlValue(serde_yaml::Value);

/// Whether serde_yaml accepts the text as a YAML document.
pub uninterp spec fn yaml_parses(s: Seq<char>) -> bool;

/// The document that the text parses to, mirrored into the library's node
/// type; `None` exactly where `yaml_parses` does not hold.
pub uninterp spec fn yaml_doc_of(s: Seq<char>) -> Option<DocNode>;

/// Relies on serde_yaml's Value variants: mirrors a parsed value into the
/// library's node, one arm per variant, moving the fields. Mapping entries
/// keep document order; a non-string mapping key becomes the empty name; a
/// tagged value stands for its inner value; numbers become their decimal
/// text (NaN and infinities print as `.nan`/`.inf`, which no later reading
/// accepts as a numeral).
#[verifier::external_body]
fn node_of_yaml(v: &serde_yaml::Value) -> DocNode {
    match v {
        serde_yaml::Value::Null => DocNode::Null,
        serde_yaml::Value::Bool(b) => DocNode::Bool(*b),
        serde_yaml::Value::Number(n) => DocNode::Num(n.to_string()),
        serde_yaml::Value::String(s) => DocNode::Str(s.clone()),
        serde_yaml::Value::Sequence(a) => DocNode::Arr(a.iter().map(node_of_yaml).collect()),
        serde_yaml::Value::Mapping(m) => DocNode::Obj(
            m.iter().map(
                |(k, x)| (k.as_str().unwrap_or("").to_string(), node_of_yaml(x)),
            ).collect(),
        ),
        serde_yaml::Value::Tagged(t) => node_of_yaml(&t.value),
    }
}

/// Relies on serde_yaml::from_str: deterministic in the text, `Some` exactly
/// when the text is a valid YAML document; the result is that document.
#[verifier::external_body]
pub(crate) fn yaml_parse(s: &str) -> (r: Option<DocNode>)
    ensures
        r is Some == yaml_parses(s@),
        r == yaml_doc_of(s@),
{
    serde_yaml::from_str::<serde_yaml::Value>(s).ok().map(|v| node_of_yaml(&v))
}

} // verus!
