//! Lexical normalization of `/`-separated paths: `.` parts and empty parts
//! are dropped, and a `name/..` pair cancels. Two texts that normalize alike
//! name the same file (symbolic links aside).
use vstd::prelude::*;

verus! {

/// The components kept so far, after adding component `c`.
pub open spec fn push_component(stack: Seq<Seq<char>>, c: Seq<char>) -> Seq<Seq<char>> {
    if c.len() == 0 || c == "."@ {
        stack
    } else if c == ".."@ && stack.len() > 0 && stack.last() != ".."@ {
        stack.drop_last()
    } else {
        stack.push(c)
    }
}

/// The components kept after the first `i` characters of `s`, and where
/// the component in progress starts.
pub open spec fn scan_path(s: Seq<char>, i: int) -> (Seq<Seq<char>>, int)
    decreases i,
{
    if i <= 0 {
        (Seq::empty(), 0)
    } else {
        let (stack, start) = scan_path(s, i - 1);
        if s[i - 1] == '/' {
            (push_component(stack, s.subrange(start, i - 1)), i)
        } else {
            (stack, start)
        }
    }
}

/// The components of `s` once normalized.
pub open spec fn path_components(s: Seq<char>) -> Seq<Seq<char>> {
    let (stack, start) = scan_path(s, s.len() as int);
    push_component(stack, s.subrange(start, s.len() as int))
}

/// Components joined with `/`.
pub open spec fn join_components(cs: Seq<Seq<char>>) -> Seq<char>
    decreases cs.len(),
{
    if cs.len() == 0 {
        Seq::empty()
    } else if cs.len() == 1 {
        cs[0]
    } else {
        join_components(cs.drop_last()) + "/"@ + cs.last()
    }
}

/// The lexically normalized form of the path `s`; an absolute path keeps
/// its leading `/`.
pub open spec fn lexical_path(s: Seq<char>) -> Seq<char> {
    if s.len() > 0 && s[0] == '/' {
        "/"@ + join_components(path_components(s))
    } else {
        join_components(path_components(s))
    }
}

fn is_text(s: &String, lit: &str) -> (r: bool)
    ensures
        r == (s@ == lit@),
{
    *s == String::from_str(lit)
}

fn push_component_exec(stack: &mut Vec<String>, c: String)
    ensures
        final(stack)@.map_values(|x: String| x@) == push_component(
            old(stack)@.map_values(|x: String| x@),
            c@,
        ),
{
    let ghost before = stack@.map_values(|x: String| x@);
    if c.unicode_len() == 0 || is_text(&c, ".") {
        return;
    }
    if is_text(&c, "..") && stack.len() > 0 && !is_text(&stack[stack.len() - 1], "..") {
        stack.pop();
        assert(stack@.map_values(|x: String| x@) =~= before.drop_last());
        return;
    }
    stack.push(c);
    assert(stack@.map_values(|x: String| x@) =~= before.push(c@));
}

/// Normalizes the path `p` lexically.
pub fn normalize_path(p: &str) -> (r: String)
    ensures
        r@ == lexical_path(p@),
{
    let n = p.unicode_len();
    let mut stack: Vec<String> = Vec::new();
    let mut start: usize = 0;
    let mut i: usize = 0;
    while i < n
        invariant
            n == p@.len(),
            i <= n,
            start <= i,
            scan_path(p@, i as int) == (stack@.map_values(|x: String| x@), start as int),
        decreases n - i,
    {
        if p.get_char(i) == '/' {
            let c = String::from_str(p.substring_char(start, i));
            push_component_exec(&mut stack, c);
            start = i + 1;
        }
        i = i + 1;
    }
    let last = String::from_str(p.substring_char(start, n));
    push_component_exec(&mut stack, last);
    let ghost cs = stack@.map_values(|x: String| x@);
    assert(cs == path_components(p@));
    let mut out = if n > 0 && p.get_char(0) == '/' {
        String::from_str("/")
    } else {
        String::new()
    };
    let ghost prefix = out@;
    let mut k: usize = 0;
    while k < stack.len()
        invariant
            k <= stack.len(),
            cs == stack@.map_values(|x: String| x@),
            out@ == prefix + join_components(cs.subrange(0, k as int)),
        decreases stack.len() - k,
    {
        assert(cs.subrange(0, k as int + 1).drop_last() =~= cs.subrange(0, k as int));
        if k > 0 {
            out.append("/");
        }
        out.append(stack[k].as_str());
        proof {
            if k == 0 {
                assert(cs.subrange(0, 1).len() == 1);
                assert(join_components(cs.subrange(0, 1)) == cs[0]);
            }
            assert(out@ =~= prefix + join_components(cs.subrange(0, k as int + 1)));
        }
        k = k + 1;
    }
    assert(cs.subrange(0, k as int) =~= cs);
    out
}

} // verus!
