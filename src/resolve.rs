//! Resolution of an `extends` chain. The decisions stand here as a state
//! machine: the caller reads the file that it asks for and hands back the
//! text, until the chain is merged or fails.
use crate::error::ConfigError;
use crate::json::{lookup, merge, merge_json, Json, JsonValue};
use crate::parse::{parse_to_value, text_value};
use crate::paths::{lexical_path, normalize_path};
use vstd::prelude::*;

verus! {

/// The parent that the value `v` names under `extends`, where it names one.
pub open spec fn extends_target(v: Json) -> Option<Seq<char>> {
    match v {
        Json::Object(m) => match lookup(m, "extends"@) {
            Some(Json::Str(s)) => Some(s),
            _ => None,
        },
        _ => None,
    }
}

/// The text of the `extends` field of `v`, where it holds a string.
pub fn extends_of(v: &JsonValue) -> (r: Option<String>)
    ensures
        match extends_target(v@) {
            Some(s) => r matches Some(t) && t@ == s,
            None => r is None,
        },
{
    match v {
        JsonValue::Object(es) => match crate::fields::get(es, "extends") {
            Some(JsonValue::String(s)) => Some(s.clone()),
            _ => None,
        },
        _ => None,
    }
}

/// The directory that std's Path::parent gives for a path, or the empty
/// path where it gives none.
pub uninterp spec fn parent_of(p: Seq<char>) -> Seq<char>;

/// The path that std's Path::join gives for `t` taken relative to `d`.
pub uninterp spec fn joined(d: Seq<char>, t: Seq<char>) -> Seq<char>;

/// The path that a document at `current` names by the `extends` text `t`:
/// `t` joined to the document's directory, lexically normalized.
pub open spec fn parent_path(current: Seq<char>, t: Seq<char>) -> Seq<char> {
    lexical_path(joined(parent_of(current), t))
}

/// Relies on std::path::Path::parent: the directory that holds `path`, or
/// the empty path where it has none.
#[verifier::external_body]
fn parent_dir(path: &str) -> (r: String)
    ensures
        r@ == parent_of(path@),
{
    match std::path::Path::new(path).parent() {
        Some(d) => d.to_string_lossy().into_owned(),
        None => String::new(),
    }
}

/// Relies on std::path::Path::join: `target` taken relative to `dir`.
#[verifier::external_body]
fn join_path(dir: &str, target: &str) -> (r: String)
    ensures
        r@ == joined(dir@, target@),
{
    std::path::Path::new(dir).join(target).to_string_lossy().into_owned()
}

/// A chain of documents, child first, merged: each document is layered on
/// top of its parent's merged chain.
pub open spec fn merged_chain(layers: Seq<Json>) -> Json
    decreases layers.len(),
{
    if layers.len() <= 1 {
        if layers.len() == 1 {
            layers[0]
        } else {
            Json::Null
        }
    } else {
        merge_json(merged_chain(layers.subrange(1, layers.len() as int)), layers[0])
    }
}

/// Merges a chain of documents given child first.
pub fn merge_chain(layers: Vec<JsonValue>) -> (r: JsonValue)
    requires
        layers.len() > 0,
    ensures
        r@ == merged_chain(layers@.map_values(|v: JsonValue| v@)),
{
    let ghost s = layers@.map_values(|v: JsonValue| v@);
    let ghost n = layers.len() as int;
    let mut layers = layers;
    let mut acc = layers.pop().unwrap();
    assert(s.subrange(n - 1, n) =~= seq![acc@]);
    while layers.len() > 0
        invariant
            0 <= layers.len() < n,
            s.len() == n,
            forall|i: int| 0 <= i < layers.len() ==> #[trigger] s[i] == layers@[i]@,
            acc@ == merged_chain(s.subrange(layers.len() as int, n)),
        decreases layers.len(),
    {
        let ghost k = layers.len() as int;
        let next = layers.pop().unwrap();
        assert(s.subrange(k - 1, n).subrange(1, n - k + 1) =~= s.subrange(k, n));
        acc = merge(acc, next);
    }
    assert(s.subrange(0, n) =~= s);
    acc
}

/// What one step of resolution asks of its caller.
#[derive(Debug)]
pub enum ResolveStep {
    /// Read the file at this path and hand its text to `feed`.
    Read(String),
    /// The chain is resolved: its merged value.
    Done(JsonValue),
    /// The chain failed.
    Failed(ConfigError),
}

/// A resolution in progress: the paths read so far, the one now asked
/// for last, and the documents parsed, child first.
pub struct Resolution {
    paths: Vec<String>,
    layers: Vec<JsonValue>,
}

pub open spec fn views_of_strings(v: Seq<String>) -> Seq<Seq<char>> {
    v.map_values(|s: String| s@)
}

impl Resolution {
    /// The resolution is waiting for the text of its last path.
    pub closed spec fn wf(&self) -> bool {
        self.paths@.len() == self.layers@.len() + 1
    }

    /// The paths of the chain so far, the one asked for last.
    pub closed spec fn paths_view(&self) -> Seq<Seq<char>> {
        views_of_strings(self.paths@)
    }

    /// The documents parsed so far, child first.
    pub closed spec fn layers_view(&self) -> Seq<Json> {
        self.layers@.map_values(|v: JsonValue| v@)
    }

    /// Starts the resolution of the file at `path`. Paths are kept, and
    /// asked for, in their lexically normalized form.
    pub fn new(path: &str) -> (r: Resolution)
        ensures
            r.wf(),
            r.paths_view() == seq![lexical_path(path@)],
            r.layers_view().len() == 0,
    {
        let mut paths: Vec<String> = Vec::new();
        paths.push(normalize_path(path));
        let r = Resolution { paths, layers: Vec::new() };
        assert(r.paths_view() =~= seq![lexical_path(path@)]);
        r
    }

    /// The path whose text the resolution waits for.
    pub fn pending_path(&self) -> (r: &String)
        requires
            self.wf(),
        ensures
            r@ == self.paths_view().last(),
    {
        &self.paths[self.paths.len() - 1]
    }

    /// Whether `p` is among the paths of the chain so far.
    fn has_path(&self, p: &String) -> (r: bool)
        ensures
            r == self.paths_view().contains(p@),
    {
        let mut i: usize = 0;
        while i < self.paths.len()
            invariant
                i <= self.paths.len(),
                forall|j: int| 0 <= j < i ==> self.paths@[j]@ != p@,
            decreases self.paths.len() - i,
        {
            if self.paths[i] == *p {
                assert(self.paths_view()[i as int] == p@);
                return true;
            }
            i = i + 1;
        }
        assert forall|j: int| 0 <= j < self.paths_view().len() implies self.paths_view()[j]
            != p@ by {
            assert(self.paths_view()[j] == self.paths@[j]@);
        }
        false
    }

    /// Takes the text of the pending file. Text that does not parse ends
    /// the chain with a parse error. A document that names a parent asks for
    /// the parent, read relative to the document's directory, unless the
    /// chain already holds that path: then it fails with a cycle error. A
    /// document without a parent ends the chain with the merge of all its
    /// documents, each over its parent.
    pub fn feed(&mut self, text: &str) -> (r: ResolveStep)
        requires
            old(self).wf(),
        ensures
            match text_value(text@) {
                None => r matches ResolveStep::Failed(ConfigError::ParseError(_)),
                Some(j) => if extends_target(j) is None {
                    r matches ResolveStep::Done(v) && v@ == merged_chain(
                        old(self).layers_view().push(j),
                    )
                } else {
                    let p = parent_path(old(self).paths_view().last(), extends_target(j)->0);
                    if old(self).paths_view().contains(p) {
                        r matches ResolveStep::Failed(ConfigError::CyclicExtends(q)) && q@ == p
                    } else {
                        r matches ResolveStep::Read(q) && {
                            &&& q@ == p
                            &&& final(self).wf()
                            &&& final(self).paths_view() == old(self).paths_view().push(p)
                            &&& final(self).layers_view() == old(self).layers_view().push(j)
                        }
                    }
                },
            },
    {
        let v = match parse_to_value(text) {
            Ok(v) => v,
            Err(e) => return ResolveStep::Failed(e),
        };
        match extends_of(&v) {
            Some(target) => {
                let dir = parent_dir(self.paths[self.paths.len() - 1].as_str());
                let full = join_path(dir.as_str(), target.as_str());
                let parent = normalize_path(full.as_str());
                if self.has_path(&parent) {
                    return ResolveStep::Failed(ConfigError::CyclicExtends(parent));
                }
                let ghost old_paths = self.paths@;
                let ghost old_layers = self.layers@;
                self.paths.push(parent.clone());
                self.layers.push(v);
                proof {
                    assert(self.paths_view() =~= views_of_strings(old_paths).push(parent@));
                    assert(self.layers_view() =~= old_layers.map_values(|x: JsonValue| x@).push(
                        v@,
                    ));
                }
                ResolveStep::Read(parent)
            },
            None => {
                let ghost old_layers = self.layers@;
                let ghost before = self.layers_view();
                let ghost last = v@;
                self.layers.push(v);
                let mut layers: Vec<JsonValue> = Vec::new();
                std::mem::swap(&mut layers, &mut self.layers);
                assert(layers@.map_values(|x: JsonValue| x@) =~= old_layers.map_values(
                    |x: JsonValue| x@,
                ).push(last));
                let merged = merge_chain(layers);
                assert(merged_chain(before.push(last)) == merged@);
                ResolveStep::Done(merged)
            },
        }
    }
}

/// Resolution composes: the chain C, B, A (C extends B, B extends A) merges
/// to A with B layered on it, then C layered on that.
pub proof fn lemma_chain_composes(a: Json, b: Json, c: Json)
    ensures
        merged_chain(seq![c, b, a]) == merge_json(merge_json(a, b), c),
{
    let s = seq![c, b, a];
    assert(s.subrange(1, 3) =~= seq![b, a]);
    assert(seq![b, a].subrange(1, 2) =~= seq![a]);
    assert(merged_chain(seq![a]) == a);
    assert(merged_chain(seq![b, a]) == merge_json(a, b));
}

} // verus!
