//! The line sanitizer: drops comments and the contents of string literals
//! from one line, so that text inside them never looks like code.

use vstd::prelude::*;
use crate::analyzer::ContentAnalyzer;
use crate::text::{chars_of, string_of};

verus! {

/// Index of the first `*/` at or after `k`, if any.
pub open spec fn block_end(s: Seq<char>, k: int) -> Option<int>
    decreases s.len() - k,
{
    if k < 0 || k + 1 >= s.len() {
        None
    } else if s[k] == '*' && s[k + 1] == '/' {
        Some(k)
    } else {
        block_end(s, k + 1)
    }
}

/// What the sanitizer emits for `s` from index `i` on. Outside a string, `//`
/// ends the line, `/* ... */` becomes one space (an unclosed one ends the
/// line), and an opening quote (`"` or `'`) becomes one space; inside a string
/// opened by `q`, everything up to and including the next `q` is dropped.
pub open spec fn sanitize_from(s: Seq<char>, i: int, in_string: bool, q: char) -> Seq<char>
    decreases s.len() - i,
{
    if i < 0 || i >= s.len() {
        seq![]
    } else if in_string {
        sanitize_from(s, i + 1, s[i] != q, q)
    } else if s[i] == '/' && i + 1 < s.len() && s[i + 1] == '/' {
        seq![]
    } else if s[i] == '/' && i + 1 < s.len() && s[i + 1] == '*' {
        match block_end(s, i + 2) {
            Some(j) => if i < j && j + 2 <= s.len() {
                seq![' '] + sanitize_from(s, j + 2, false, q)
            } else {
                seq![]
            },
            None => seq![],
        }
    } else if s[i] == '"' || s[i] == '\'' {
        seq![' '] + sanitize_from(s, i + 1, true, s[i])
    } else {
        seq![s[i]] + sanitize_from(s, i + 1, false, q)
    }
}

/// The sanitized form of one line.
pub open spec fn sanitize(s: Seq<char>) -> Seq<char> {
    sanitize_from(s, 0, false, '"')
}

proof fn lemma_block_end(s: Seq<char>, k: int)
    requires
        0 <= k,
    ensures
        block_end(s, k) matches Some(j) ==> k <= j && j + 1 < s.len() && s[j] == '*' && s[j + 1]
            == '/',
    decreases s.len() - k,
{
    if k + 1 >= s.len() {
    } else if s[k] == '*' && s[k + 1] == '/' {
    } else {
        lemma_block_end(s, k + 1);
    }
}

/// Finds the first `*/` at or after `k`.
fn find_block_end(s: &[char], k: usize) -> (r: Option<usize>)
    ensures
        r matches Some(j) ==> block_end(s@, k as int) == Some(j as int),
        r is None ==> block_end(s@, k as int) is None,
{
    let mut t: usize = k;
    proof {
        lemma_block_end(s@, k as int);
    }
    while t < s.len() && t + 1 < s.len()
        invariant
            k <= t,
            block_end(s@, k as int) == block_end(s@, t as int),
        decreases s@.len() - t,
    {
        if s[t] == '*' && s[t + 1] == '/' {
            return Some(t);
        }
        t += 1;
    }
    None
}

/// Removes comments and string-literal contents from one line.
pub fn sanitize_chars(s: &[char]) -> (r: Vec<char>)
    ensures
        r@ == sanitize(s@),
{
    let n = s.len();
    let mut out: Vec<char> = Vec::new();
    let mut i: usize = 0;
    let mut in_string = false;
    let mut q = '"';
    while i < n
        invariant
            n == s@.len(),
            i <= n,
            out@ + sanitize_from(s@, i as int, in_string, q) == sanitize(s@),
        decreases n - i,
    {
        let c = s[i];
        if in_string {
            in_string = c != q;
            i += 1;
        } else if c == '/' && i + 1 < n && s[i + 1] == '/' {
            assert(out@ + sanitize_from(s@, i as int, in_string, q) =~= out@);
            return out;
        } else if c == '/' && i + 1 < n && s[i + 1] == '*' {
            match find_block_end(s, i + 2) {
                Some(j) => {
                    proof {
                        lemma_block_end(s@, i + 2);
                    }
                    let ghost before = out@;
                    out.push(' ');
                    assert(before + sanitize_from(s@, i as int, in_string, q) =~= out@
                        + sanitize_from(s@, j + 2, false, q));
                    i = j + 2;
                },
                None => {
                    assert(out@ + sanitize_from(s@, i as int, in_string, q) =~= out@);
                    return out;
                },
            }
        } else if c == '"' || c == '\'' {
            let ghost before = out@;
            out.push(' ');
            assert(before + sanitize_from(s@, i as int, in_string, q) =~= out@ + sanitize_from(
                s@,
                i + 1,
                true,
                c,
            ));
            in_string = true;
            q = c;
            i += 1;
        } else {
            let ghost before = out@;
            out.push(c);
            assert(before + sanitize_from(s@, i as int, in_string, q) =~= out@ + sanitize_from(
                s@,
                i + 1,
                false,
                q,
            ));
            i += 1;
        }
    }
    assert(out@ + sanitize_from(s@, i as int, in_string, q) =~= out@);
    out
}

impl ContentAnalyzer {
    /// The line with `//` comments cut, same-line `/* */` comments and string
    /// literals each replaced by one space. Escapes are not interpreted.
    pub fn remove_strings_and_comments(&self, line: &str) -> (r: String)
        ensures
            r@ == sanitize(line@),
    {
        let v = chars_of(line);
        let out = sanitize_chars(v.as_slice());
        string_of(out.as_slice())
    }
}

} // verus!
