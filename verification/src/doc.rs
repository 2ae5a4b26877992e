//! The nested-structure parser: a structured document tree, lookups by
//! named key or array index, and a walk along a fixed path. Absence of
//! any path segment is a hard parse failure, never an empty result.

use vstd::prelude::*;

use crate::text::{spec_has_digit_run, str_eq_str};

verus! {

/// A structured document, holding as plain values what the parsers
/// read. Scalar leaves the parsers never read are collapsed to `Other`.
#[derive(Debug)]
pub enum DocNode {
    /// A text leaf.
    Text(String),
    /// An ordered array.
    List(Vec<DocNode>),
    /// An object: named entries in document order.
    Object(Vec<(String, DocNode)>),
    /// A leaf the parsers never read (number, boolean, null).
    Other,
}

/// One step of a fixed path: a named key or an array index.
#[derive(Debug)]
pub enum PathStep {
    Key(String),
    At(usize),
}

// ---------------------------------------------------------------------------
// Lookups
// ---------------------------------------------------------------------------

/// The value of the first entry named `key`, if any.
pub open spec fn spec_map_get(entries: Seq<(String, DocNode)>, key: Seq<char>) -> Option<DocNode>
    decreases entries.len(),
{
    if entries.len() == 0 {
        None
    } else if entries[0].0@ == key {
        Some(entries[0].1)
    } else {
        spec_map_get(entries.skip(1), key)
    }
}

/// Look `key` up among the entries of an object.
pub fn map_get<'a>(entries: &'a Vec<(String, DocNode)>, key: &str) -> (r: Option<&'a DocNode>)
    ensures
        match r {
            Some(n) => spec_map_get(entries@, key@) == Some(*n),
            None => spec_map_get(entries@, key@) is None,
        },
{
    let mut i: usize = 0;
    proof {
        assert(entries@.skip(0) =~= entries@);
    }
    while i < entries.len()
        invariant
            0 <= i <= entries@.len(),
            spec_map_get(entries@, key@) == spec_map_get(entries@.skip(i as int), key@),
        decreases entries@.len() - i,
    {
        proof {
            assert(entries@.skip(i as int)[0] == entries@[i as int]);
            assert(entries@.skip(i as int).skip(1) =~= entries@.skip(i as int + 1));
        }
        if str_eq_str(entries[i].0.as_str(), key) {
            return Some(&entries[i].1);
        }
        i = i + 1;
    }
    None
}

/// Step from `node` through the entry named `key`.
pub open spec fn spec_key_step(node: Option<DocNode>, key: Seq<char>) -> Option<DocNode> {
    match node {
        Some(DocNode::Object(entries)) => spec_map_get(entries@, key),
        _ => None,
    }
}

/// Step from `node` into position `i` of an array.
pub open spec fn spec_at_step(node: Option<DocNode>, i: int) -> Option<DocNode> {
    match node {
        Some(DocNode::List(items)) => if 0 <= i < items@.len() {
            Some(items@[i])
        } else {
            None
        },
        _ => None,
    }
}

/// The text of a leaf, if the node is one.
pub open spec fn spec_doc_text(node: DocNode) -> Option<String> {
    match node {
        DocNode::Text(s) => Some(s),
        _ => None,
    }
}

pub fn doc_text<'a>(node: &'a DocNode) -> (r: Option<&'a String>)
    ensures
        match r {
            Some(s) => spec_doc_text(*node) == Some(*s),
            None => spec_doc_text(*node) is None,
        },
{
    match node {
        DocNode::Text(s) => Some(s),
        _ => None,
    }
}

/// The node behind an optional reference.
pub open spec fn spec_opt_node(node: Option<&DocNode>) -> Option<DocNode> {
    match node {
        Some(n) => Some(*n),
        None => None,
    }
}

/// One key step, carried through an optional node.
pub fn key_step<'a>(node: Option<&'a DocNode>, key: &str) -> (r: Option<&'a DocNode>)
    ensures
        match r {
            Some(n) => spec_key_step(spec_opt_node(node), key@) == Some(*n),
            None => spec_key_step(spec_opt_node(node), key@) is None,
        },
{
    match node {
        Some(DocNode::Object(entries)) => map_get(entries, key),
        _ => None,
    }
}

/// One index step, carried through an optional node.
pub fn at_step<'a>(node: Option<&'a DocNode>, i: usize) -> (r: Option<&'a DocNode>)
    ensures
        match r {
            Some(n) => spec_at_step(spec_opt_node(node), i as int) == Some(*n),
            None => spec_at_step(spec_opt_node(node), i as int) is None,
        },
{
    match node {
        Some(DocNode::List(items)) => if i < items.len() {
            Some(&items[i])
        } else {
            None
        },
        _ => None,
    }
}

// ---------------------------------------------------------------------------
// The walk
// ---------------------------------------------------------------------------

/// The node a fixed path leads to, if every segment is present.
pub open spec fn spec_walk(node: DocNode, path: Seq<PathStep>) -> Option<DocNode>
    decreases path.len(),
{
    if path.len() == 0 {
        Some(node)
    } else {
        let child = match path[0] {
            PathStep::Key(k) => spec_key_step(Some(node), k@),
            PathStep::At(i) => spec_at_step(Some(node), i as int),
        };
        match child {
            Some(c) => spec_walk(c, path.skip(1)),
            None => None,
        }
    }
}

/// Walk `path` down from `node`; absence of any segment is failure.
pub fn walk<'a>(node: &'a DocNode, path: &Vec<PathStep>) -> (r: Option<&'a DocNode>)
    ensures
        match r {
            Some(n) => spec_walk(*node, path@) == Some(*n),
            None => spec_walk(*node, path@) is None,
        },
{
    let mut cur: &'a DocNode = node;
    let mut i: usize = 0;
    proof {
        assert(path@.skip(0) =~= path@);
    }
    while i < path.len()
        invariant
            0 <= i <= path@.len(),
            spec_walk(*node, path@) == spec_walk(*cur, path@.skip(i as int)),
        decreases path@.len() - i,
    {
        proof {
            assert(path@.skip(i as int)[0] == path@[i as int]);
            assert(path@.skip(i as int).skip(1) =~= path@.skip(i as int + 1));
        }
        let next: Option<&'a DocNode> = match &path[i] {
            PathStep::Key(k) => match cur {
                DocNode::Object(entries) => map_get(entries, k.as_str()),
                _ => None,
            },
            PathStep::At(ix) => match cur {
                DocNode::List(items) => if *ix < items.len() {
                    Some(&items[*ix])
                } else {
                    None
                },
                _ => None,
            },
        };
        match next {
            Some(n) => {
                cur = n;
                i = i + 1;
            },
            None => {
                return None;
            },
        }
    }
    proof {
        assert(path@.skip(i as int) =~= Seq::<PathStep>::empty());
    }
    Some(cur)
}

// ---------------------------------------------------------------------------
// Obtaining a document from structured text
// ---------------------------------------------------------------------------

/// Declares json's tree type so the conversion below can take it.
#[verifier::external_type_specification]
#[verifier::external_body]
pub struct ExJsonValue(json::JsonValue);

/// What `json::parse` yields on `text`, carried over to the library's
/// tree: a function of the text alone.
pub uninterp spec fn parsed_doc_of(text: Seq<char>) -> Option<DocNode>;

/// The longest run of consecutive ASCII digits a handed-in text may
/// hold. The parser behind `parse_structured` counts a number's decimal
/// exponent in a 16-bit counter that moves once per digit of an
/// over-long fraction, so a text whose digit run approached 32,769
/// could overflow it; callers reject texts with longer runs before the
/// call, with room to spare.
pub const DIGIT_RUN_LIMIT: usize = 10000;

/// Relies on json::parse: a pure, deterministic parser from text to a
/// JSON tree; a parse error becomes `None`. The digit-run bound keeps
/// every number in the text far below what the parser's 16-bit exponent
/// counter tolerates (its other number paths are checked or
/// saturating).
#[verifier::external_body]
pub(crate) fn parse_structured(text: &str) -> (r: Option<DocNode>)
    requires
        !spec_has_digit_run(text@, DIGIT_RUN_LIMIT as int + 1),
    ensures
        r == parsed_doc_of(text@),
{
    match json::parse(text) {
        Ok(v) => Some(doc_of_json(v)),
        Err(_) => None,
    }
}

/// Relies on json::JsonValue's variants alone: each arm moves one
/// variant's contents into the library's tree; scalar leaves the
/// parsers never read become `DocNode::Other`.
#[verifier::external_body]
fn doc_of_json(v: json::JsonValue) -> DocNode {
    match v {
        json::JsonValue::Null => DocNode::Other,
        json::JsonValue::Boolean(_) => DocNode::Other,
        json::JsonValue::Number(_) => DocNode::Other,
        json::JsonValue::Short(s) => DocNode::Text(s.as_str().to_owned()),
        json::JsonValue::String(s) => DocNode::Text(s),
        json::JsonValue::Array(items) => DocNode::List(
            items.into_iter().map(doc_of_json).collect(),
        ),
        json::JsonValue::Object(o) => DocNode::Object(
            o.iter().map(|(k, v)| (k.to_owned(), doc_of_json(v.clone()))).collect(),
        ),
    }
}

} // verus!
