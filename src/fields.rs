//! Reading typed fields out of the entries of a JSON object: what each
//! field shape accepts, as spec functions over the model, and the code that
//! reads it.
use crate::error::ConfigError;
use crate::json::{
    find_key, lookup, lemma_view_entries, lemma_view_items, view_entries, view_items, Json,
    JsonValue,
};
use vstd::prelude::*;

verus! {

/// An optional boolean: absent or null gives `Some(None)`; `None` is a
/// shape error.
pub open spec fn bool_shape(j: Option<Json>) -> Option<Option<bool>> {
    match j {
        None => Some(None),
        Some(Json::Null) => Some(None),
        Some(Json::Bool(b)) => Some(Some(b)),
        _ => None,
    }
}

/// An optional string.
pub open spec fn string_shape(j: Option<Json>) -> Option<Option<Seq<char>>> {
    match j {
        None => Some(None),
        Some(Json::Null) => Some(None),
        Some(Json::Str(s)) => Some(Some(s)),
        _ => None,
    }
}

/// The strings of `items`, or `None` where one is not a string.
pub open spec fn strings_of(items: Seq<Json>) -> Option<Seq<Seq<char>>>
    decreases items.len(),
{
    if items.len() == 0 {
        Some(Seq::empty())
    } else {
        match (strings_of(items.drop_last()), items.last()) {
            (Some(init), Json::Str(s)) => Some(init.push(s)),
            _ => None,
        }
    }
}

/// An optional list of strings.
pub open spec fn string_list_shape(j: Option<Json>) -> Option<Option<Seq<Seq<char>>>> {
    match j {
        None => Some(None),
        Some(Json::Null) => Some(None),
        Some(Json::Array(items)) => match strings_of(items) {
            Some(ss) => Some(Some(ss)),
            None => None,
        },
        _ => None,
    }
}

pub open spec fn is_digit(c: char) -> bool {
    '0' <= c && c <= '9'
}

/// The value of the decimal digits `t`.
pub open spec fn decimal_value(t: Seq<char>) -> int
    decreases t.len(),
{
    if t.len() == 0 {
        0
    } else {
        decimal_value(t.drop_last()) * 10 + (t.last() as int - '0' as int)
    }
}

/// The number text `t` names an integer that fits `u32`.
pub open spec fn u32_text(t: Seq<char>) -> Option<u32> {
    if 0 < t.len() && (forall|i: int| 0 <= i < t.len() ==> is_digit(#[trigger] t[i]))
        && decimal_value(t) <= u32::MAX {
        Some(decimal_value(t) as u32)
    } else {
        None
    }
}

/// An optional unsigned 32-bit integer.
pub open spec fn u32_shape(j: Option<Json>) -> Option<Option<u32>> {
    match j {
        None => Some(None),
        Some(Json::Null) => Some(None),
        Some(Json::Number(t)) => match u32_text(t) {
            Some(n) => Some(Some(n)),
            None => None,
        },
        _ => None,
    }
}

pub open spec fn view_opt_string(o: Option<String>) -> Option<Seq<char>> {
    match o {
        Some(s) => Some(s@),
        None => None,
    }
}

pub open spec fn view_strings(v: Seq<String>) -> Seq<Seq<char>> {
    v.map_values(|s: String| s@)
}

pub open spec fn view_opt_strings(o: Option<Vec<String>>) -> Option<Seq<Seq<char>>> {
    match o {
        Some(v) => Some(view_strings(v@)),
        None => None,
    }
}

/// Looks up key `k` among the entries `es`.
pub fn get<'a>(es: &'a Vec<(String, JsonValue)>, k: &str) -> (r: Option<&'a JsonValue>)
    ensures
        match r {
            Some(v) => lookup(view_entries(es@), k@) == Some(v@),
            None => lookup(view_entries(es@), k@) is None,
        },
{
    proof {
        lemma_view_entries(es@);
    }
    match find_key(es, &String::from_str(k)) {
        Some(i) => Some(&es[i].1),
        None => None,
    }
}

fn shape_error(k: &str) -> (e: ConfigError)
    ensures
        e matches ConfigError::SchemaError(_),
{
    ConfigError::SchemaError(String::from_str(k))
}

/// Reads the optional boolean under `k`.
pub fn bool_field(es: &Vec<(String, JsonValue)>, k: &str) -> (r: Result<Option<bool>, ConfigError>)
    ensures
        match bool_shape(lookup(view_entries(es@), k@)) {
            Some(b) => r == Ok::<Option<bool>, ConfigError>(b),
            None => r matches Err(ConfigError::SchemaError(_)),
        },
{
    match get(es, k) {
        None => Ok(None),
        Some(JsonValue::Null) => Ok(None),
        Some(JsonValue::Bool(b)) => Ok(Some(*b)),
        Some(_) => Err(shape_error(k)),
    }
}

/// Reads the optional string under `k`.
pub fn string_field(es: &Vec<(String, JsonValue)>, k: &str) -> (r: Result<Option<String>, ConfigError>)
    ensures
        match string_shape(lookup(view_entries(es@), k@)) {
            Some(s) => r matches Ok(o) && view_opt_string(o) == s,
            None => r matches Err(ConfigError::SchemaError(_)),
        },
{
    match get(es, k) {
        None => Ok(None),
        Some(JsonValue::Null) => Ok(None),
        Some(JsonValue::String(s)) => Ok(Some(s.clone())),
        Some(_) => Err(shape_error(k)),
    }
}

/// Reads a list of strings.
pub fn strings(items: &Vec<JsonValue>) -> (r: Option<Vec<String>>)
    ensures
        match strings_of(items@.map_values(|v: JsonValue| v@)) {
            Some(ss) => r matches Some(v) && view_strings(v@) == ss,
            None => r is None,
        },
{
    let ghost m = items@.map_values(|v: JsonValue| v@);
    let mut out: Vec<String> = Vec::new();
    let mut i: usize = 0;
    while i < items.len()
        invariant
            i <= items.len(),
            m == items@.map_values(|v: JsonValue| v@),
            strings_of(m.subrange(0, i as int)) == Some(view_strings(out@)),
        decreases items.len() - i,
    {
        assert(m.subrange(0, i as int + 1).drop_last() == m.subrange(0, i as int));
        match &items[i] {
            JsonValue::String(s) => {
                out.push(s.clone());
                assert(view_strings(out@) =~= view_strings(out@).drop_last().push(s@));
                assert(view_strings(out@).drop_last() =~= view_strings(out@.drop_last()));
            },
            _ => {
                assert(m.subrange(0, i as int + 1).last() == items@[i as int]@);
                proof {
                    lemma_strings_of_prefix(m, i as int + 1);
                }
                return None;
            },
        }
        i = i + 1;
    }
    assert(m.subrange(0, i as int) == m);
    Some(out)
}

/// Where a prefix holds a non-string, so does the whole list.
proof fn lemma_strings_of_prefix(m: Seq<Json>, n: int)
    requires
        0 <= n <= m.len(),
        strings_of(m.subrange(0, n)) is None,
    ensures
        strings_of(m) is None,
    decreases m.len() - n,
{
    if n < m.len() {
        assert(m.subrange(0, n + 1).drop_last() == m.subrange(0, n));
        lemma_strings_of_prefix(m, n + 1);
    } else {
        assert(m.subrange(0, n) == m);
    }
}


/// The path mappings of `es`: each value a list of strings.
pub open spec fn mappings_of(es: Seq<(Seq<char>, Json)>) -> Option<Seq<(Seq<char>, Seq<Seq<char>>)>>
    decreases es.len(),
{
    if es.len() == 0 {
        Some(Seq::empty())
    } else {
        match (mappings_of(es.drop_last()), es.last().1) {
            (Some(init), Json::Array(items)) => match strings_of(items) {
                Some(ss) => Some(init.push((es.last().0, ss))),
                None => None,
            },
            _ => None,
        }
    }
}

/// An optional object that maps patterns to lists of strings.
pub open spec fn mappings_shape(j: Option<Json>) -> Option<Option<Seq<(Seq<char>, Seq<Seq<char>>)>>> {
    match j {
        None => Some(None),
        Some(Json::Null) => Some(None),
        Some(Json::Object(es)) => match mappings_of(es) {
            Some(m) => Some(Some(m)),
            None => None,
        },
        _ => None,
    }
}

pub open spec fn view_mappings(v: Seq<(String, Vec<String>)>) -> Seq<(Seq<char>, Seq<Seq<char>>)> {
    v.map_values(|p: (String, Vec<String>)| (p.0@, view_strings(p.1@)))
}

pub open spec fn view_opt_mappings(o: Option<Vec<(String, Vec<String>)>>) -> Option<
    Seq<(Seq<char>, Seq<Seq<char>>)>,
> {
    match o {
        Some(v) => Some(view_mappings(v@)),
        None => None,
    }
}

pub(crate) proof fn lemma_items_map(a: Seq<JsonValue>)
    ensures
        view_items(a) == a.map_values(|v: JsonValue| v@),
{
    lemma_view_items(a);
    assert(view_items(a) =~= a.map_values(|v: JsonValue| v@));
}

/// Reads the optional list of strings under `k`.
pub fn string_list_field(es: &Vec<(String, JsonValue)>, k: &str) -> (r: Result<
    Option<Vec<String>>,
    ConfigError,
>)
    ensures
        match string_list_shape(lookup(view_entries(es@), k@)) {
            Some(s) => r matches Ok(o) && view_opt_strings(o) == s,
            None => r matches Err(ConfigError::SchemaError(_)),
        },
{
    match get(es, k) {
        None => Ok(None),
        Some(JsonValue::Null) => Ok(None),
        Some(JsonValue::Array(items)) => {
            proof {
                lemma_items_map(items@);
            }
            match strings(items) {
                Some(v) => Ok(Some(v)),
                None => Err(shape_error(k)),
            }
        },
        Some(_) => Err(shape_error(k)),
    }
}

/// The value of number text that is a plain decimal integer fitting `u32`.
pub fn u32_of_text(t: &str) -> (r: Option<u32>)
    ensures
        r == u32_text(t@),
{
    let n = t.unicode_len();
    if n == 0 {
        return None;
    }
    let mut acc: u64 = 0;
    let mut i: usize = 0;
    while i < n
        invariant
            n == t@.len(),
            i <= n,
            acc == decimal_value(t@.subrange(0, i as int)),
            acc <= u32::MAX,
            forall|j: int| 0 <= j < i ==> is_digit(#[trigger] t@[j]),
        decreases n - i,
    {
        let c = t.get_char(i);
        assert(t@.subrange(0, i as int + 1).drop_last() == t@.subrange(0, i as int));
        if !('0' <= c && c <= '9') {
            return None;
        }
        let d = (c as u32 - '0' as u32) as u64;
        acc = acc * 10 + d;
        if acc > 0xffff_ffff {
            proof {
                if forall|j: int| 0 <= j < t@.len() ==> is_digit(#[trigger] t@[j]) {
                    lemma_decimal_grows(t@, i as int + 1);
                }
            }
            return None;
        }
        i = i + 1;
    }
    assert(t@.subrange(0, n as int) == t@);
    Some(acc as u32)
}

proof fn lemma_decimal_grows(t: Seq<char>, k: int)
    requires
        0 <= k <= t.len(),
        forall|j: int| 0 <= j < t.len() ==> is_digit(#[trigger] t[j]),
    ensures
        decimal_value(t) >= decimal_value(t.subrange(0, k)),
    decreases t.len() - k,
{
    if k < t.len() {
        lemma_decimal_grows(t, k + 1);
        assert(t.subrange(0, k + 1).drop_last() == t.subrange(0, k));
        lemma_decimal_nonneg(t.subrange(0, k));
    } else {
        assert(t.subrange(0, k) == t);
    }
}

proof fn lemma_decimal_nonneg(t: Seq<char>)
    requires
        forall|j: int| 0 <= j < t.len() ==> is_digit(#[trigger] t[j]),
    ensures
        decimal_value(t) >= 0,
    decreases t.len(),
{
    if t.len() > 0 {
        lemma_decimal_nonneg(t.drop_last());
    }
}

/// Reads the optional unsigned integer under `k`.
pub fn u32_field(es: &Vec<(String, JsonValue)>, k: &str) -> (r: Result<Option<u32>, ConfigError>)
    ensures
        match u32_shape(lookup(view_entries(es@), k@)) {
            Some(n) => r == Ok::<Option<u32>, ConfigError>(n),
            None => r matches Err(ConfigError::SchemaError(_)),
        },
{
    match get(es, k) {
        None => Ok(None),
        Some(JsonValue::Null) => Ok(None),
        Some(JsonValue::Number(t)) => match u32_of_text(t.as_str()) {
            Some(n) => Ok(Some(n)),
            None => Err(shape_error(k)),
        },
        Some(_) => Err(shape_error(k)),
    }
}

/// Reads the optional mapping from patterns to lists of strings under `k`.
pub fn mappings_field(es: &Vec<(String, JsonValue)>, k: &str) -> (r: Result<
    Option<Vec<(String, Vec<String>)>>,
    ConfigError,
>)
    ensures
        match mappings_shape(lookup(view_entries(es@), k@)) {
            Some(m) => r matches Ok(o) && view_opt_mappings(o) == m,
            None => r matches Err(ConfigError::SchemaError(_)),
        },
{
    match get(es, k) {
        None => Ok(None),
        Some(JsonValue::Null) => Ok(None),
        Some(JsonValue::Object(ms)) => {
            let ghost m = view_entries(ms@);
            proof {
                lemma_view_entries(ms@);
            }
            let mut out: Vec<(String, Vec<String>)> = Vec::new();
            let mut i: usize = 0;
            while i < ms.len()
                invariant
                    i <= ms.len(),
                    m == view_entries(ms@),
                    lookup(view_entries(es@), k@) == Some(Json::Object(m)),
                    m.len() == ms.len(),
                    forall|j: int|
                        0 <= j < ms.len() ==> #[trigger] m[j] == (ms@[j].0@, ms@[j].1@),
                    mappings_of(m.subrange(0, i as int)) == Some(view_mappings(out@)),
                decreases ms.len() - i,
            {
                assert(m.subrange(0, i as int + 1).drop_last() == m.subrange(0, i as int));
                assert(m.subrange(0, i as int + 1).last() == m[i as int]);
                match &ms[i].1 {
                    JsonValue::Array(items) => {
                        proof {
                            lemma_items_map(items@);
                        }
                        match strings(items) {
                            Some(v) => {
                                out.push((ms[i].0.clone(), v));
                                assert(view_mappings(out@) =~= view_mappings(out@.drop_last()).push(
                                    (m[i as int].0, view_strings(out@.last().1@)),
                                ));
                            },
                            None => {
                                proof {
                                    assert(m[i as int].1 == Json::Array(view_items(items@)));
                                    assert(mappings_of(m.subrange(0, i as int + 1)) is None);
                                    lemma_mappings_of_prefix(m, i as int + 1);
                                }
                                return Err(shape_error(k));
                            },
                        }
                    },
                    _ => {
                        proof {
                            assert(!(m[i as int].1 is Array));
                            assert(mappings_of(m.subrange(0, i as int + 1)) is None);
                            lemma_mappings_of_prefix(m, i as int + 1);
                        }
                        return Err(shape_error(k));
                    },
                }
                i = i + 1;
            }
            assert(m.subrange(0, i as int) == m);
            Ok(Some(out))
        },
        Some(_) => Err(shape_error(k)),
    }
}

proof fn lemma_mappings_of_prefix(m: Seq<(Seq<char>, Json)>, n: int)
    requires
        0 <= n <= m.len(),
        mappings_of(m.subrange(0, n)) is None,
    ensures
        mappings_of(m) is None,
    decreases m.len() - n,
{
    if n < m.len() {
        assert(m.subrange(0, n + 1).drop_last() == m.subrange(0, n));
        lemma_mappings_of_prefix(m, n + 1);
    } else {
        assert(m.subrange(0, n) == m);
    }
}

} // verus!
