//! The structured value: an untyped JSON tree, its mathematical model, and
//! the right-biased deep merge used to layer a document over its parent.
use vstd::prelude::*;

verus! {

/// An untyped JSON value. Numbers keep the text that the parser printed
/// for them; objects keep their entries in order (a parsed object has no
/// repeated key).
#[derive(Debug)]
pub enum JsonValue {
    Null,
    Bool(bool),
    Number(String),
    String(String),
    Array(Vec<JsonValue>),
    Object(Vec<(String, JsonValue)>),
}

/// The mathematical model of a `JsonValue`.
pub enum Json {
    Null,
    Bool(bool),
    Number(Seq<char>),
    Str(Seq<char>),
    Array(Seq<Json>),
    Object(Seq<(Seq<char>, Json)>),
}

pub open spec fn view_items(s: Seq<JsonValue>) -> Seq<Json>
    decreases s,
{
    if s.len() == 0 {
        Seq::empty()
    } else {
        view_items(s.subrange(0, s.len() - 1)).push(s[s.len() - 1].view_json())
    }
}

pub open spec fn view_entries(s: Seq<(String, JsonValue)>) -> Seq<(Seq<char>, Json)>
    decreases s,
{
    if s.len() == 0 {
        Seq::empty()
    } else {
        view_entries(s.subrange(0, s.len() - 1)).push(
            (s[s.len() - 1].0@, s[s.len() - 1].1.view_json()),
        )
    }
}

impl JsonValue {
    pub open spec fn view_json(&self) -> Json
        decreases self,
    {
        match self {
            JsonValue::Null => Json::Null,
            JsonValue::Bool(b) => Json::Bool(*b),
            JsonValue::Number(n) => Json::Number(n@),
            JsonValue::String(s) => Json::Str(s@),
            JsonValue::Array(a) => Json::Array(view_items(a@)),
            JsonValue::Object(o) => Json::Object(view_entries(o@)),
        }
    }
}

impl View for JsonValue {
    type V = Json;

    open spec fn view(&self) -> Json {
        self.view_json()
    }
}


/// Index of the first entry with key `k`, or -1 when there is none.
pub open spec fn key_index(es: Seq<(Seq<char>, Json)>, k: Seq<char>) -> int
    decreases es.len(),
{
    if es.len() == 0 {
        -1
    } else if es[0].0 == k {
        0
    } else {
        let r = key_index(es.subrange(1, es.len() as int), k);
        if r < 0 {
            -1
        } else {
            r + 1
        }
    }
}

/// Layers `over` on top of `base`: objects merge key by key, anything else
/// in `over` replaces what `base` holds.
pub open spec fn merge_json(base: Json, over: Json) -> Json
    decreases over,
{
    match over {
        Json::Object(o) => match base {
            Json::Object(b) => Json::Object(merge_entries(b, o)),
            _ => over,
        },
        _ => over,
    }
}

/// Folds the overlay entries `o`, first to last, into the base entries `b`.
pub open spec fn merge_entries(b: Seq<(Seq<char>, Json)>, o: Seq<(Seq<char>, Json)>) -> Seq<
    (Seq<char>, Json),
>
    decreases o,
{
    if o.len() == 0 {
        b
    } else {
        let acc = merge_entries(b, o.subrange(0, o.len() - 1));
        let k = o[o.len() - 1].0;
        let i = key_index(acc, k);
        if i >= 0 {
            acc.update(i, (k, merge_json(acc[i].1, o[o.len() - 1].1)))
        } else {
            acc.push((k, o[o.len() - 1].1))
        }
    }
}


/// The model of a list of entries is the list of the entries' models.
pub proof fn lemma_view_entries(s: Seq<(String, JsonValue)>)
    ensures
        view_entries(s).len() == s.len(),
        forall|i: int|
            0 <= i < s.len() ==> #[trigger] view_entries(s)[i] == (s[i].0@, s[i].1@),
    decreases s.len(),
{
    if s.len() > 0 {
        lemma_view_entries(s.subrange(0, s.len() - 1));
    }
}

/// The model of a list of values is the list of the values' models.
pub proof fn lemma_view_items(s: Seq<JsonValue>)
    ensures
        view_items(s).len() == s.len(),
        forall|i: int| 0 <= i < s.len() ==> #[trigger] view_items(s)[i] == s[i]@,
    decreases s.len(),
{
    if s.len() > 0 {
        lemma_view_items(s.subrange(0, s.len() - 1));
    }
}

pub(crate) proof fn lemma_key_index(es: Seq<(Seq<char>, Json)>, k: Seq<char>)
    ensures
        -1 <= key_index(es, k) < es.len(),
        key_index(es, k) >= 0 ==> es[key_index(es, k)].0 == k,
        forall|j: int| 0 <= j < key_index(es, k) ==> #[trigger] es[j].0 != k,
        key_index(es, k) == -1 ==> forall|j: int| 0 <= j < es.len() ==> #[trigger] es[j].0 != k,
    decreases es.len(),
{
    if es.len() > 0 && es[0].0 != k {
        let t = es.subrange(1, es.len() as int);
        lemma_key_index(t, k);
        assert forall|j: int| 1 <= j < es.len() implies es[j].0 == t[j - 1].0 by {}
        if key_index(t, k) == -1 {
            assert forall|j: int| 0 <= j < es.len() implies #[trigger] es[j].0 != k by {
                if j > 0 {
                    assert(t[j - 1].0 != k);
                }
            }
        } else {
            assert forall|j: int| 0 <= j < key_index(es, k) implies #[trigger] es[j].0 != k by {
                if j > 0 {
                    assert(t[j - 1].0 != k);
                }
            }
        }
    }
}

pub(crate) proof fn lemma_key_index_found(es: Seq<(Seq<char>, Json)>, k: Seq<char>, i: int)
    requires
        0 <= i < es.len(),
        es[i].0 == k,
        forall|j: int| 0 <= j < i ==> #[trigger] es[j].0 != k,
    ensures
        key_index(es, k) == i,
{
    lemma_key_index(es, k);
}

/// Finds the position of key `k` among the entries `es`.
pub(crate) fn find_key(es: &Vec<(String, JsonValue)>, k: &String) -> (r: Option<usize>)
    ensures
        r matches Some(i) ==> i < es.len(),
        match r {
            Some(i) => i as int == key_index(view_entries(es@), k@),
            None => key_index(view_entries(es@), k@) == -1,
        },
{
    proof {
        lemma_view_entries(es@);
        lemma_key_index(view_entries(es@), k@);
    }
    let mut i: usize = 0;
    while i < es.len()
        invariant
            i <= es.len(),
            view_entries(es@).len() == es.len(),
            forall|j: int|
                0 <= j < es.len() ==> #[trigger] view_entries(es@)[j] == (es@[j].0@, es@[j].1@),
            forall|j: int| 0 <= j < i ==> #[trigger] view_entries(es@)[j].0 != k@,
        decreases es.len() - i,
    {
        if es[i].0 == *k {
            proof {
                lemma_key_index_found(view_entries(es@), k@, i as int);
            }
            return Some(i);
        }
        i = i + 1;
    }
    None
}

/// Layers `over` on top of `base`: where both are objects, their entries
/// merge key by key, recursively; otherwise `over` replaces `base` whole.
pub fn merge(base: JsonValue, over: JsonValue) -> (r: JsonValue)
    ensures
        r@ == merge_json(base@, over@),
    decreases over,
{
    match over {
        JsonValue::Object(o) => match base {
            JsonValue::Object(b) => {
                proof {
                    assert(decreases_to!(o => o@));
                }
                let m = merge_entries_exec(b, o);
                JsonValue::Object(m)
            },
            _ => JsonValue::Object(o),
        },
        _ => over,
    }
}

fn merge_entries_exec(b: Vec<(String, JsonValue)>, o: Vec<(String, JsonValue)>) -> (r: Vec<
    (String, JsonValue),
>)
    ensures
        view_entries(r@) == merge_entries(view_entries(b@), view_entries(o@)),
    decreases o@,
{
    let mut o = o;
    if o.len() == 0 {
        return b;
    }
    let ghost o0 = o@;
    let (k, v) = o.pop().unwrap();
    proof {
        assert(o@ == o0.subrange(0, o0.len() - 1));
        assert(decreases_to!(o0 => o0[o0.len() - 1]));
        assert(o0[o0.len() - 1] == (k, v));
        assert(decreases_to!(o0[o0.len() - 1] => v));
        lemma_view_entries(o0);
        lemma_view_entries(o@);
        assert(view_entries(o@) =~= view_entries(o0).subrange(0, o0.len() - 1));
    }
    let mut acc = merge_entries_exec(b, o);
    proof {
        lemma_view_entries(acc@);
        lemma_key_index(view_entries(acc@), k@);
    }
    match find_key(&acc, &k) {
        Some(i) => {
            let ghost a0 = acc@;
            let (k0, old) = acc.remove(i);
            let m = merge(old, v);
            acc.insert(i, (k0, m));
            proof {
                lemma_view_entries(a0);
                lemma_view_entries(acc@);
                lemma_key_index(view_entries(a0), k@);
                assert(view_entries(acc@) =~= view_entries(a0).update(
                    i as int,
                    (k@, merge_json(view_entries(a0)[i as int].1, v@)),
                ));
            }
        },
        None => {
            let ghost a0 = acc@;
            acc.push((k, v));
            proof {
                lemma_view_entries(a0);
                lemma_view_entries(acc@);
                assert(view_entries(acc@) =~= view_entries(a0).push((k@, v@)));
            }
        },
    }
    acc
}

/// No two entries share a key.
pub open spec fn keys_unique(es: Seq<(Seq<char>, Json)>) -> bool {
    forall|i: int, j: int| 0 <= i < j < es.len() ==> es[i].0 != es[j].0
}

/// The value stored under `k`, if any.
pub open spec fn lookup(es: Seq<(Seq<char>, Json)>, k: Seq<char>) -> Option<Json> {
    let i = key_index(es, k);
    if 0 <= i < es.len() {
        Some(es[i].1)
    } else {
        None
    }
}

/// What a key holds after a merge, from what it holds in the base and in
/// the overlay.
pub open spec fn merged_slot(b: Option<Json>, o: Option<Json>) -> Option<Json> {
    match o {
        None => b,
        Some(v) => match b {
            Some(u) => Some(merge_json(u, v)),
            None => Some(v),
        },
    }
}

/// Where `es[i]` holds `k` and no entry before it does, `k` is found there.
proof fn lemma_lookup_at(es: Seq<(Seq<char>, Json)>, k: Seq<char>, i: int)
    requires
        0 <= i < es.len(),
        es[i].0 == k,
        forall|j: int| 0 <= j < i ==> #[trigger] es[j].0 != k,
    ensures
        lookup(es, k) == Some(es[i].1),
{
    lemma_key_index_found(es, k, i);
}

/// Where no entry holds `k`, it is not found.
proof fn lemma_lookup_absent(es: Seq<(Seq<char>, Json)>, k: Seq<char>)
    requires
        forall|j: int| 0 <= j < es.len() ==> #[trigger] es[j].0 != k,
    ensures
        lookup(es, k) is None,
{
    lemma_key_index(es, k);
}

/// Appending an entry with another key leaves what `k` finds unchanged.
pub(crate) proof fn lemma_lookup_push_other(es: Seq<(Seq<char>, Json)>, e: (Seq<char>, Json), k: Seq<char>)
    requires
        e.0 != k,
    ensures
        lookup(es.push(e), k) == lookup(es, k),
{
    let t = es.push(e);
    lemma_key_index(es, k);
    let i = key_index(es, k);
    if i >= 0 {
        assert forall|j: int| 0 <= j < i implies #[trigger] t[j].0 != k by {
            assert(t[j] == es[j]);
        }
        lemma_lookup_at(t, k, i);
    } else {
        assert forall|j: int| 0 <= j < t.len() implies #[trigger] t[j].0 != k by {
            if j < es.len() {
                assert(t[j] == es[j]);
            }
        }
        lemma_lookup_absent(t, k);
    }
}

/// Inserting an entry with another key, at any position, leaves what `k`
/// finds unchanged.
pub(crate) proof fn lemma_lookup_insert_other(
    es: Seq<(Seq<char>, Json)>,
    i: int,
    e: (Seq<char>, Json),
    k: Seq<char>,
)
    requires
        0 <= i <= es.len(),
        e.0 != k,
    ensures
        lookup(es.insert(i, e), k) == lookup(es, k),
{
    let t = es.insert(i, e);
    lemma_key_index(es, k);
    let x = key_index(es, k);
    if x >= 0 {
        let y = if x < i { x } else { x + 1 };
        assert(t[y] == es[x]);
        assert forall|j: int| 0 <= j < y implies #[trigger] t[j].0 != k by {
            if j < i {
                assert(t[j] == es[j]);
            } else if j > i {
                assert(t[j] == es[j - 1]);
            }
        }
        lemma_lookup_at(t, k, y);
    } else {
        assert forall|j: int| 0 <= j < t.len() implies #[trigger] t[j].0 != k by {
            if j < i {
                assert(t[j] == es[j]);
            } else if j > i {
                assert(t[j] == es[j - 1]);
            }
        }
        lemma_lookup_absent(t, k);
    }
}

/// Replacing the value of an entry with another key leaves what `k` finds
/// unchanged.
proof fn lemma_lookup_update_other(
    es: Seq<(Seq<char>, Json)>,
    i: int,
    e: (Seq<char>, Json),
    k: Seq<char>,
)
    requires
        0 <= i < es.len(),
        es[i].0 == e.0,
        e.0 != k,
    ensures
        lookup(es.update(i, e), k) == lookup(es, k),
{
    let t = es.update(i, e);
    lemma_key_index(es, k);
    let x = key_index(es, k);
    if x >= 0 {
        assert forall|j: int| 0 <= j < x implies #[trigger] t[j].0 != k by {
            assert(t[j].0 == es[j].0);
        }
        assert(t[x] == es[x]);
        lemma_lookup_at(t, k, x);
    } else {
        assert forall|j: int| 0 <= j < t.len() implies #[trigger] t[j].0 != k by {
            assert(t[j].0 == es[j].0);
        }
        lemma_lookup_absent(t, k);
    }
}

/// Merging objects is right-biased and recursive: for every key, a value
/// only in the base stays, a value only in the overlay is added, two
/// objects merge, and otherwise the overlay's value replaces the base's.
pub proof fn lemma_merge_lookup(b: Seq<(Seq<char>, Json)>, o: Seq<(Seq<char>, Json)>, k: Seq<char>)
    requires
        keys_unique(o),
    ensures
        lookup(merge_entries(b, o), k) == merged_slot(lookup(b, k), lookup(o, k)),
    decreases o.len(),
{
    if o.len() == 0 {
        lemma_lookup_absent(o, k);
    } else {
        let n = o.len() - 1;
        let init = o.subrange(0, n);
        let (kn, vn) = o[n];
        assert(keys_unique(init));
        lemma_merge_lookup(b, init, k);
        let acc = merge_entries(b, init);
        lemma_key_index(acc, kn);
        let i = key_index(acc, kn);
        assert(o == init.push((kn, vn)));
        if kn == k {
            assert forall|j: int| 0 <= j < init.len() implies #[trigger] init[j].0 != k by {
                assert(init[j] == o[j]);
            }
            lemma_lookup_absent(init, k);
            assert forall|j: int| 0 <= j < n implies #[trigger] o[j].0 != k by {
                assert(init[j] == o[j]);
            }
            lemma_lookup_at(o, k, n);
            if i >= 0 {
                let t = acc.update(i, (kn, merge_json(acc[i].1, vn)));
                assert forall|j: int| 0 <= j < i implies #[trigger] t[j].0 != k by {
                    assert(t[j] == acc[j]);
                }
                lemma_lookup_at(t, k, i);
                lemma_lookup_at(acc, k, i);
            } else {
                let t = acc.push((kn, vn));
                assert forall|j: int| 0 <= j < acc.len() implies #[trigger] t[j].0 != k by {
                    assert(t[j] == acc[j]);
                }
                lemma_lookup_at(t, k, acc.len() as int);
                lemma_lookup_absent(acc, k);
            }
        } else {
            lemma_lookup_push_other(init, (kn, vn), k);
            if i >= 0 {
                lemma_lookup_update_other(acc, i, (kn, merge_json(acc[i].1, vn)), k);
            } else {
                lemma_lookup_push_other(acc, (kn, vn), k);
            }
        }
    }
}

/// Where the base or the overlay is not an object, the overlay replaces the
/// base whole.
pub proof fn lemma_merge_replaces(base: Json, over: Json)
    requires
        !(base is Object) || !(over is Object),
    ensures
        merge_json(base, over) == over,
{
}

/// Merging with an empty object on top leaves the base unchanged.
pub proof fn lemma_merge_empty_overlay(base: Json)
    requires
        base is Object,
    ensures
        merge_json(base, Json::Object(Seq::empty())) == base,
{
}

} // verus!
