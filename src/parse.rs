//! Text to structured value: normalization, then the JSON parser, then a
//! walk that copies the parser's tree into a `JsonValue`.
use crate::config::{ts_config_agree, ts_config_fit, TsConfig};
use crate::error::ConfigError;
use crate::json::{Json, JsonValue};
use crate::normalize::{normalize, normalized};
use vstd::prelude::*;

verus! {

#[verifier::external_type_specification]
#[verifier::external_body]
pub struct ExParsedValue(serde_json::Value);

/// One node of the parser's tree, its children still in the parser's form.
pub enum ParsedNode {
    Null,
    Bool(bool),
    Number(String),
    Text(String),
    Array(Vec<serde_json::Value>),
    Object(Vec<(String, serde_json::Value)>),
}

/// The value that serde_json parses from the text `s`, or `None` where the
/// text is not valid JSON. It depends on the text alone.
pub uninterp spec fn json_of_text(s: Seq<char>) -> Option<Json>;

/// The tree that a parsed serde_json::Value holds.
pub uninterp spec fn tree_of(v: serde_json::Value) -> Json;

/// Relies on serde_json::from_str into a serde_json::Value: parses strict
/// JSON text, or gives the parser's message (with line and column).
#[verifier::external_body]
fn parse_json_text(s: &str) -> (r: Result<serde_json::Value, String>)
    ensures
        r is Ok <==> json_of_text(s@) is Some,
        r matches Ok(v) ==> json_of_text(s@) == Some(tree_of(v)),
{
    match serde_json::from_str::<serde_json::Value>(s) {
        Ok(v) => Ok(v),
        Err(e) => Err(e.to_string()),
    }
}

/// Relies on the variants of serde_json::Value: splits a node into its
/// kind and parts; a number becomes the text serde_json::Number displays,
/// and an object's entries come in the order its map yields them.
#[verifier::external_body]
fn node_of(v: serde_json::Value) -> (r: ParsedNode)
    ensures
        r is Null ==> tree_of(v) == Json::Null,
        r matches ParsedNode::Bool(b) ==> tree_of(v) == Json::Bool(b),
        r matches ParsedNode::Number(t) ==> tree_of(v) == Json::Number(t@),
        r matches ParsedNode::Text(t) ==> tree_of(v) == Json::Str(t@),
        r matches ParsedNode::Array(a) ==> tree_of(v) == Json::Array(
            a@.map_values(|x: serde_json::Value| tree_of(x)),
        ),
        r matches ParsedNode::Object(es) ==> tree_of(v) == Json::Object(
            es@.map_values(|e: (String, serde_json::Value)| (e.0@, tree_of(e.1))),
        ),
{
    match v {
        serde_json::Value::Null => ParsedNode::Null,
        serde_json::Value::Bool(b) => ParsedNode::Bool(b),
        serde_json::Value::Number(n) => ParsedNode::Number(n.to_string()),
        serde_json::Value::String(s) => ParsedNode::Text(s),
        serde_json::Value::Array(a) => ParsedNode::Array(a),
        serde_json::Value::Object(m) => ParsedNode::Object(m.into_iter().collect()),
    }
}

/// The trees of a list of parsed values.
pub open spec fn trees_of(a: Seq<serde_json::Value>) -> Seq<Json> {
    a.map_values(|x: serde_json::Value| tree_of(x))
}

/// The entries of a list of parsed object entries.
pub open spec fn entry_trees_of(es: Seq<(String, serde_json::Value)>) -> Seq<(Seq<char>, Json)> {
    es.map_values(|e: (String, serde_json::Value)| entry_tree(e))
}

/// Copies the parser's tree into a `JsonValue`.
fn copy_tree(v: serde_json::Value) -> (r: JsonValue)
    ensures
        r@ == tree_of(v),
    decreases tree_of(v),
{
    let ghost t = tree_of(v);
    match node_of(v) {
        ParsedNode::Null => JsonValue::Null,
        ParsedNode::Bool(b) => JsonValue::Bool(b),
        ParsedNode::Number(n) => JsonValue::Number(n),
        ParsedNode::Text(s) => JsonValue::String(s),
        ParsedNode::Array(a) => {
            assert(t->Array_0 == trees_of(a@));
            assert(decreases_to!(t => t->Array_0));
            JsonValue::Array(copy_items(a))
        },
        ParsedNode::Object(es) => {
            assert(t->Object_0 == entry_trees_of(es@));
            assert(decreases_to!(t => t->Object_0));
            JsonValue::Object(copy_entries(es))
        },
    }
}

/// Copies a list of parsed values, in order.
fn copy_items(a: Vec<serde_json::Value>) -> (r: Vec<JsonValue>)
    ensures
        crate::json::view_items(r@) == trees_of(a@),
    decreases trees_of(a@),
{
    let ghost whole = trees_of(a@);
    let mut a = a;
    if a.len() == 0 {
        proof {
            crate::json::lemma_view_items(Seq::<JsonValue>::empty());
        }
        assert(whole =~= Seq::<Json>::empty());
        return Vec::new();
    }
    let first = a.remove(0);
    assert(whole[0] == tree_of(first));
    assert(decreases_to!(whole => whole[0]));
    assert(trees_of(a@) =~= whole.subrange(1, whole.len() as int));
    assert(decreases_to!(whole => whole.subrange(1, whole.len() as int)));
    let x = copy_tree(first);
    let mut r = copy_items(a);
    proof {
        crate::json::lemma_view_items(r@);
    }
    let ghost r0 = r@;
    r.insert(0, x);
    proof {
        crate::json::lemma_view_items(r@);
        assert forall|i: int| 0 <= i < whole.len() implies #[trigger] crate::json::view_items(r@)[i] == whole[i] by {
            if i > 0 {
                assert(r@[i] == r0[i - 1]);
                assert(crate::json::view_items(r0)[i - 1] == whole.subrange(1, whole.len() as int)[i - 1]);
            }
        }
        assert(crate::json::view_items(r@) =~= whole);
    }
    r
}

/// The key and tree of one parsed object entry.
pub open spec fn entry_tree(e: (String, serde_json::Value)) -> (Seq<char>, Json) {
    (e.0@, tree_of(e.1))
}

/// Copies one parsed object entry.
fn copy_entry(e: (String, serde_json::Value)) -> (r: (String, JsonValue))
    ensures
        (r.0@, r.1@) == (e.0@, tree_of(e.1)),
    decreases entry_tree(e),
{
    assert(decreases_to!(entry_tree(e) => entry_tree(e).1));
    let (k, v) = e;
    (k, copy_tree(v))
}

/// Copies a list of parsed object entries, in order.
fn copy_entries(es: Vec<(String, serde_json::Value)>) -> (r: Vec<(String, JsonValue)>)
    ensures
        crate::json::view_entries(r@) == entry_trees_of(es@),
    decreases entry_trees_of(es@),
{
    let ghost whole = entry_trees_of(es@);
    let mut es = es;
    if es.len() == 0 {
        proof {
            crate::json::lemma_view_entries(Seq::<(String, JsonValue)>::empty());
        }
        assert(whole =~= Seq::<(Seq<char>, Json)>::empty());
        return Vec::new();
    }
    let first = es.remove(0);
    assert(whole[0] == (first.0@, tree_of(first.1)));
    assert(decreases_to!(whole => whole[0]));
    assert(entry_trees_of(es@) =~= whole.subrange(1, whole.len() as int));
    assert(decreases_to!(whole => whole.subrange(1, whole.len() as int)));
    let x = copy_entry(first);
    let mut r = copy_entries(es);
    proof {
        crate::json::lemma_view_entries(r@);
    }
    let ghost r0 = r@;
    r.insert(0, x);
    proof {
        crate::json::lemma_view_entries(r@);
        assert forall|i: int| 0 <= i < whole.len() implies #[trigger] crate::json::view_entries(r@)[i] == whole[i] by {
            if i > 0 {
                assert(r@[i] == r0[i - 1]);
                assert(crate::json::view_entries(r0)[i - 1] == whole.subrange(1, whole.len() as int)[i - 1]);
            }
        }
        assert(crate::json::view_entries(r@) =~= whole);
    }
    r
}

/// The value that configuration text stands for: its normalization, parsed.
pub open spec fn text_value(s: Seq<char>) -> Option<Json> {
    match normalized(s) {
        Some(n) => json_of_text(n),
        None => None,
    }
}

/// Normalizes configuration text and parses it into a structured value.
/// It succeeds, with the parsed value of the normalized text, exactly
/// where that text is valid JSON; otherwise it gives a parse error.
pub fn parse_to_value(json: &str) -> (r: Result<JsonValue, ConfigError>)
    ensures
        match text_value(json@) {
            Some(j) => r matches Ok(v) && v@ == j,
            None => r matches Err(ConfigError::ParseError(_)),
        },
{
    let text = match normalize(json) {
        Some(t) => t,
        None => return Err(ConfigError::ParseError(String::from_str("unterminated string or comment"))),
    };
    match parse_json_text(text.as_str()) {
        Ok(v) => Ok(copy_tree(v)),
        Err(m) => Err(ConfigError::ParseError(m)),
    }
}

impl TsConfig {
    /// Parses configuration text into the typed model, with no `extends`
    /// resolution: the text's own fields only. It is `parse_to_value`
    /// followed by `TsConfig::from_json`.
    pub fn parse_str(json: &str) -> (r: Result<TsConfig, ConfigError>)
        ensures
            match text_value(json@) {
                Some(j) => {
                    &&& (r is Ok <==> ts_config_fit(j))
                    &&& match r {
                        Ok(c) => ts_config_agree(c, j),
                        Err(e) => e is SchemaError,
                    }
                },
                None => r matches Err(ConfigError::ParseError(_)),
            },
    {
        match parse_to_value(json) {
            Ok(v) => TsConfig::from_json(&v),
            Err(e) => Err(e),
        }
    }
}

} // verus!
