//! The text normalizer: turns the tolerant configuration syntax (comments,
//! trailing commas before `}`) into strict JSON text.
use std::io::Read;
use vstd::prelude::*;

verus! {

/// The characters that the pattern class `\s` matches: Unicode White_Space.
pub open spec fn is_pattern_space(c: char) -> bool {
    let u = c as u32;
    (0x09 <= u && u <= 0x0d) || u == 0x20 || u == 0x85 || u == 0xa0 || u == 0x1680 || (0x2000
        <= u && u <= 0x200a) || u == 0x2028 || u == 0x2029 || u == 0x202f || u == 0x205f || u
        == 0x3000
}

/// `t` starts with zero or more spaces followed by `}`.
pub open spec fn closes_after_space(t: Seq<char>) -> bool
    decreases t.len(),
{
    if t.len() == 0 {
        false
    } else if t[0] == '}' {
        true
    } else {
        is_pattern_space(t[0]) && closes_after_space(t.subrange(1, t.len() as int))
    }
}

/// `s` with every comma removed that is followed by optional spaces and a `}`.
/// Commas before `]` stay.
pub open spec fn drop_object_trailing_commas(s: Seq<char>) -> Seq<char>
    decreases s.len(),
{
    if s.len() == 0 {
        s
    } else {
        let rest = drop_object_trailing_commas(s.subrange(1, s.len() as int));
        if s[0] == ',' && closes_after_space(s.subrange(1, s.len() as int)) {
            rest
        } else {
            seq![s[0]] + rest
        }
    }
}

/// Relies on regex::Regex::replace_all with the pattern `,(?P<valid>\s*})`
/// and the replacement `$valid`: each leftmost match, a comma, spaces and a
/// `}`, is replaced by the same text without its comma.
#[verifier::external_body]
fn remove_object_trailing_commas(s: &str) -> (r: String)
    ensures
        r@ == drop_object_trailing_commas(s@),
{
    let re = regex::Regex::new(r",(?P<valid>\s*})").unwrap();
    re.replace_all(s, "$valid").into_owned()
}

/// The states of the comment scanner.
pub enum ScanState {
    Top,
    InString,
    StringEscape,
    InComment,
    InBlockComment,
    MaybeCommentEnd,
    InLineComment,
}

/// The number of bytes that `c` takes in UTF-8.
pub open spec fn utf8_width(c: char) -> nat {
    let u = c as u32;
    if u < 0x80 {
        1
    } else if u < 0x800 {
        2
    } else if u < 0x10000 {
        3
    } else {
        4
    }
}

/// One space for each byte of `c`.
pub open spec fn blanked(c: char) -> Seq<char> {
    Seq::new(utf8_width(c), |i: int| ' ')
}

/// One step of the scanner: the next state and what `c` becomes, or `None`
/// where a `/` starts no comment.
pub open spec fn scan_step(st: ScanState, c: char) -> Option<(ScanState, Seq<char>)> {
    match st {
        ScanState::Top => if c == '"' {
            Some((ScanState::InString, seq![c]))
        } else if c == '/' {
            Some((ScanState::InComment, seq![' ']))
        } else if c == '#' {
            Some((ScanState::InLineComment, seq![' ']))
        } else {
            Some((ScanState::Top, seq![c]))
        },
        ScanState::InString => if c == '"' {
            Some((ScanState::Top, seq![c]))
        } else if c == '\\' {
            Some((ScanState::StringEscape, seq![c]))
        } else {
            Some((ScanState::InString, seq![c]))
        },
        ScanState::StringEscape => Some((ScanState::InString, seq![c])),
        ScanState::InComment => if c == '*' {
            Some((ScanState::InBlockComment, seq![' ']))
        } else if c == '/' {
            Some((ScanState::InLineComment, seq![' ']))
        } else {
            None
        },
        ScanState::InBlockComment => if c == '*' {
            Some((ScanState::MaybeCommentEnd, blanked(c)))
        } else {
            Some((ScanState::InBlockComment, blanked(c)))
        },
        ScanState::MaybeCommentEnd => if c == '/' {
            Some((ScanState::Top, blanked(c)))
        } else if c == '*' {
            Some((ScanState::MaybeCommentEnd, blanked(c)))
        } else {
            Some((ScanState::InBlockComment, blanked(c)))
        },
        ScanState::InLineComment => if c == '\n' {
            Some((ScanState::Top, seq![c]))
        } else {
            Some((ScanState::InLineComment, blanked(c)))
        },
    }
}

/// Scans `s` from state `st`: comments (`//`, `#` and `/* */`) outside string
/// literals become spaces, the rest is kept. `None` where a `/` starts no
/// comment, or where the text ends inside a string or a block comment.
pub open spec fn strip_from(st: ScanState, s: Seq<char>) -> Option<Seq<char>>
    decreases s.len(),
{
    if s.len() == 0 {
        match st {
            ScanState::Top | ScanState::InLineComment => Some(Seq::empty()),
            _ => None,
        }
    } else {
        match scan_step(st, s[0]) {
            None => None,
            Some((next, out)) => match strip_from(next, s.subrange(1, s.len() as int)) {
                Some(rest) => Some(out + rest),
                None => None,
            },
        }
    }
}

/// The text with its comments blanked out, where the scanner accepts it.
pub open spec fn stripped(s: Seq<char>) -> Option<Seq<char>> {
    strip_from(ScanState::Top, s)
}

/// Relies on json_comments::StripComments (default settings) read to the end
/// through std::io::Read::read_to_string: the byte scanner that `strip_from`
/// states, which fails with an error where `strip_from` gives `None`.
#[verifier::external_body]
fn strip_comments(s: &str) -> (r: Option<String>)
    ensures
        match r {
            Some(t) => stripped(s@) == Some(t@),
            None => stripped(s@) is None,
        },
{
    let mut out = String::with_capacity(s.len());
    match json_comments::StripComments::new(s.as_bytes()).read_to_string(&mut out) {
        Ok(_) => Some(out),
        Err(_) => None,
    }
}

/// What normalizing `s` gives: comments blanked, then object trailing commas
/// removed.
pub open spec fn normalized(s: Seq<char>) -> Option<Seq<char>> {
    match stripped(s) {
        Some(t) => Some(drop_object_trailing_commas(t)),
        None => None,
    }
}

/// Turns configuration text into strict JSON text: comments outside string
/// literals are blanked out and commas directly before a `}` are removed.
/// `None` where the comment scanner rejects the text.
pub fn normalize(raw: &str) -> (r: Option<String>)
    ensures
        match r {
            Some(t) => normalized(raw@) == Some(t@),
            None => normalized(raw@) is None,
        },
{
    match strip_comments(raw) {
        Some(t) => Some(remove_object_trailing_commas(t.as_str())),
        None => None,
    }
}

/// Inside a string literal every character is copied, until the closing
/// quote returns the scanner to the top level.
proof fn lemma_inside_string(q: Seq<char>, rest: Seq<char>)
    requires
        forall|i: int| 0 <= i < q.len() ==> #[trigger] q[i] != '"' && q[i] != '\\',
    ensures
        strip_from(ScanState::InString, q + seq!['"'] + rest) == match strip_from(
            ScanState::Top,
            rest,
        ) {
            Some(r) => Some(q + seq!['"'] + r),
            None => None,
        },
    decreases q.len(),
{
    let s = q + seq!['"'] + rest;
    if q.len() == 0 {
        assert(s[0] == '"');
        assert(s.subrange(1, s.len() as int) =~= rest);
        assert(q + seq!['"'] =~= seq!['"']);
        if let Some(r) = strip_from(ScanState::Top, rest) {
            assert(seq!['"'] + r =~= q + seq!['"'] + r);
        }
    } else {
        let q1 = q.subrange(1, q.len() as int);
        assert(s[0] == q[0]);
        assert(s.subrange(1, s.len() as int) =~= q1 + seq!['"'] + rest);
        lemma_inside_string(q1, rest);
        if let Some(r) = strip_from(ScanState::Top, rest) {
            assert(seq![q[0]] + (q1 + seq!['"'] + r) =~= q + seq!['"'] + r);
        }
    }
}

/// Comment stripping keeps a string literal whole, comment markers inside
/// it included: a literal `"q"` at the top level comes out as it went in.
pub proof fn lemma_string_literal_kept(q: Seq<char>, rest: Seq<char>)
    requires
        forall|i: int| 0 <= i < q.len() ==> #[trigger] q[i] != '"' && q[i] != '\\',
    ensures
        strip_from(ScanState::Top, seq!['"'] + q + seq!['"'] + rest) == match strip_from(
            ScanState::Top,
            rest,
        ) {
            Some(r) => Some(seq!['"'] + q + seq!['"'] + r),
            None => None,
        },
{
    let s = seq!['"'] + q + seq!['"'] + rest;
    assert(s[0] == '"');
    assert(s.subrange(1, s.len() as int) =~= q + seq!['"'] + rest);
    lemma_inside_string(q, rest);
    if let Some(r) = strip_from(ScanState::Top, rest) {
        assert(seq!['"'] + (q + seq!['"'] + r) =~= seq!['"'] + q + seq!['"'] + r);
    }
}

/// Text of `k` spaces and then `]` does not close an object.
proof fn lemma_bracket_does_not_close(t: Seq<char>, k: int)
    requires
        0 <= k < t.len(),
        t[k] == ']',
        forall|j: int| 0 <= j < k ==> is_pattern_space(#[trigger] t[j]),
    ensures
        !closes_after_space(t),
    decreases k,
{
    if k > 0 {
        let t1 = t.subrange(1, t.len() as int);
        assert forall|j: int| 0 <= j < k - 1 implies is_pattern_space(#[trigger] t1[j]) by {
            assert(t1[j] == t[j + 1]);
        }
        lemma_bracket_does_not_close(t1, k - 1);
    }
}

/// Text of `k` spaces and then `}` closes an object.
proof fn lemma_brace_closes(t: Seq<char>, k: int)
    requires
        0 <= k < t.len(),
        t[k] == '}',
        forall|j: int| 0 <= j < k ==> is_pattern_space(#[trigger] t[j]),
    ensures
        closes_after_space(t),
    decreases k,
{
    if k > 0 {
        let t1 = t.subrange(1, t.len() as int);
        assert forall|j: int| 0 <= j < k - 1 implies is_pattern_space(#[trigger] t1[j]) by {
            assert(t1[j] == t[j + 1]);
        }
        lemma_brace_closes(t1, k - 1);
    }
}

/// Trailing-comma removal acts before `}` only: a comma followed by spaces
/// and `}` goes, a comma followed by spaces and `]` stays.
pub proof fn lemma_trailing_comma_scope(t: Seq<char>, k: int)
    requires
        0 <= k < t.len(),
        t[k] == '}' || t[k] == ']',
        forall|j: int| 0 <= j < k ==> is_pattern_space(#[trigger] t[j]),
    ensures
        t[k] == '}' ==> drop_object_trailing_commas(seq![','] + t) == drop_object_trailing_commas(t),
        t[k] == ']' ==> drop_object_trailing_commas(seq![','] + t) == seq![','] + drop_object_trailing_commas(t),
{
    let s = seq![','] + t;
    assert(s.subrange(1, s.len() as int) =~= t);
    if t[k] == '}' {
        lemma_brace_closes(t, k);
    } else {
        lemma_bracket_does_not_close(t, k);
    }
}

/// From state `st`, `s` holds no comment marker (`/`, `#`) outside its
/// string literals, and ends outside any literal.
pub open spec fn plain_from(st: ScanState, s: Seq<char>) -> bool
    decreases s.len(),
{
    if s.len() == 0 {
        st is Top
    } else {
        let c = s[0];
        let rest = s.subrange(1, s.len() as int);
        match st {
            ScanState::Top => c != '/' && c != '#' && plain_from(
                if c == '"' {
                    ScanState::InString
                } else {
                    ScanState::Top
                },
                rest,
            ),
            ScanState::InString => plain_from(
                if c == '"' {
                    ScanState::Top
                } else if c == '\\' {
                    ScanState::StringEscape
                } else {
                    ScanState::InString
                },
                rest,
            ),
            ScanState::StringEscape => plain_from(ScanState::InString, rest),
            _ => false,
        }
    }
}

/// Text without comments passes the comment scanner unchanged.
pub proof fn lemma_plain_text_kept(st: ScanState, s: Seq<char>)
    requires
        plain_from(st, s),
    ensures
        strip_from(st, s) == Some(s),
    decreases s.len(),
{
    if s.len() > 0 {
        let rest = s.subrange(1, s.len() as int);
        let next = match scan_step(st, s[0]) {
            Some((n, _)) => n,
            None => st,
        };
        lemma_plain_text_kept(next, rest);
        assert(seq![s[0]] + rest =~= s);
    }
}

/// Normalization leaves text with no comment outside its string literals
/// and no comma before `}` as it is; so normalizing twice gives what
/// normalizing once gives.
pub proof fn lemma_normal_text_fixed(x: Seq<char>)
    requires
        plain_from(ScanState::Top, x),
        drop_object_trailing_commas(x) == x,
    ensures
        normalized(x) == Some(x),
        normalized(x) matches Some(y) && normalized(y) == normalized(x),
{
    lemma_plain_text_kept(ScanState::Top, x);
}
} // verus!
