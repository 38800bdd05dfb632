//! The library's model of a parsed structured document.
//!
//! Both platforms answer with JSON and the configuration is YAML. A trusted
//! wrapper parses such text and mirrors it, node for node, into `DocNode`;
//! every walk over the document is then verified code. Numbers are carried
//! as their decimal text, and an object holds its entries in the order the
//! parser handed them out.

use vstd::prelude::*;
use crate::text::strings_equal;

verus! {

/// One node of a parsed document (a JSON value, or a YAML value with string
/// keys).
pub enum DocNode {
    Null,
    Bool(bool),
    Num(String),
    Str(String),
    Arr(Vec<DocNode>),
    Obj(Vec<(String, DocNode)>),
}

pub open spec fn entry_lookup(entries: Seq<(String, DocNode)>, key: Seq<char>) -> Option<DocNode>
    decreases entries.len(),
{
    if entries.len() == 0 {
        None
    } else if entries[0].0@ == key {
        Some(entries[0].1)
    } else {
        entry_lookup(entries.drop_first(), key)
    }
}

/// The member of an object under `key` (the first entry with that name);
/// `None` for an absent key or any non-object node.
pub open spec fn member_spec(doc: DocNode, key: Seq<char>) -> Option<DocNode> {
    match doc {
        DocNode::Obj(entries) => entry_lookup(entries@, key),
        _ => None,
    }
}

impl DocNode {
    /// Looks a key up in an object node.
    pub fn member(&self, key: &str) -> (r: Option<&DocNode>)
        ensures
            match r {
                Some(n) => member_spec(*self, key@) == Some(*n),
                None => member_spec(*self, key@) is None,
            },
    {
        match self {
            DocNode::Obj(entries) => {
                let n = entries.len();
                let mut i: usize = 0;
                proof {
                    assert(entries@.skip(0) =~= entries@);
                }
                while i < n
                    invariant
                        n == entries@.len(),
                        i <= n,
                        member_spec(*self, key@) == entry_lookup(entries@.skip(i as int), key@),
                    decreases n - i,
                {
                    let pair = &entries[i];
                    proof {
                        assert(entries@.skip(i as int)[0] == entries@[i as int]);
                    }
                    if strings_equal(pair.0.as_str(), key) {
                        return Some(&pair.1);
                    }
                    proof {
                        assert(entries@.skip(i as int).drop_first() =~= entries@.skip(i + 1));
                    }
                    i += 1;
                }
                proof {
                    assert(entries@.skip(n as int) =~= Seq::<(String, DocNode)>::empty());
                }
                None
            },
            _ => None,
        }
    }
}

} // verus!
