//! Character-level text primitives with mathematical models.
//!
//! Text is handled as sequences of Unicode scalar values (`Seq<char>`); the
//! executable helpers work on `Vec<char>` and slices of `char`.

use vstd::prelude::*;

verus! {

/// Relies on `str::chars`: it yields the characters of the string in order.
#[verifier::external_body]
pub(crate) fn chars_of(s: &str) -> (r: Vec<char>)
    ensures
        r@ == s@,
{
    s.chars().collect()
}

/// Relies on `String`'s `FromIterator<&char>`: it concatenates the characters in order.
#[verifier::external_body]
pub(crate) fn string_of(v: &[char]) -> (r: String)
    ensures
        r@ == v@,
{
    v.iter().collect()
}

/// Unicode `White_Space`, the property that `char::is_whitespace` tests.
pub open spec fn is_ws(c: char) -> bool {
    let u = c as u32;
    (9 <= u && u <= 13) || u == 32 || u == 0x85 || u == 0xa0 || u == 0x1680 || (0x2000 <= u
        && u <= 0x200a) || u == 0x2028 || u == 0x2029 || u == 0x202f || u == 0x205f || u == 0x3000
}

pub fn is_ws_char(c: char) -> (r: bool)
    ensures
        r == is_ws(c),
{
    let u = c as u32;
    (9 <= u && u <= 13) || u == 32 || u == 0x85 || u == 0xa0 || u == 0x1680 || (0x2000 <= u
        && u <= 0x200a) || u == 0x2028 || u == 0x2029 || u == 0x202f || u == 0x205f || u == 0x3000
}

pub open spec fn is_digit(c: char) -> bool {
    '0' <= c && c <= '9'
}

/// The text with leading whitespace removed.
pub open spec fn trim_start(s: Seq<char>) -> Seq<char>
    decreases s.len(),
{
    if s.len() > 0 && is_ws(s[0]) {
        trim_start(s.drop_first())
    } else {
        s
    }
}

/// The text with trailing whitespace removed.
pub open spec fn trim_end(s: Seq<char>) -> Seq<char>
    decreases s.len(),
{
    if s.len() > 0 && is_ws(s.last()) {
        trim_end(s.drop_last())
    } else {
        s
    }
}

/// The text with whitespace removed at both ends, as `str::trim` does.
pub open spec fn trim(s: Seq<char>) -> Seq<char> {
    trim_end(trim_start(s))
}

/// `p` occurs in `s` starting at index `i`.
pub open spec fn matches_at(s: Seq<char>, p: Seq<char>, i: int) -> bool {
    0 <= i && i + p.len() <= s.len() && s.subrange(i, i + p.len()) == p
}

pub open spec fn contains(s: Seq<char>, p: Seq<char>) -> bool {
    exists|i: int| matches_at(s, p, i)
}

pub open spec fn starts_with(s: Seq<char>, p: Seq<char>) -> bool {
    matches_at(s, p, 0)
}

pub open spec fn ends_with(s: Seq<char>, p: Seq<char>) -> bool {
    p.len() <= s.len() && matches_at(s, p, s.len() - p.len())
}

/// Number of non-overlapping occurrences of `p` in `s` from index `i` on,
/// taken from left to right, as `str::matches` finds them.
pub open spec fn count_from(s: Seq<char>, p: Seq<char>, i: int) -> nat
    decreases s.len() - i,
{
    if p.len() == 0 || i < 0 || i + p.len() > s.len() {
        0
    } else if matches_at(s, p, i) {
        1 + count_from(s, p, i + p.len())
    } else {
        count_from(s, p, i + 1)
    }
}

pub open spec fn count_matches(s: Seq<char>, p: Seq<char>) -> nat {
    count_from(s, p, 0)
}

/// The lines of `s` as `str::lines` splits them: at each `'\n'`, dropping one
/// `'\r'` just before it; a final line ending adds no empty line.
pub open spec fn lines_from(s: Seq<char>, i: int, start: int) -> Seq<Seq<char>>
    decreases s.len() - i,
{
    if i >= s.len() {
        if start < s.len() {
            seq![s.subrange(start, s.len() as int)]
        } else {
            seq![]
        }
    } else if s[i] == '\n' {
        seq![strip_cr(s.subrange(start, i))] + lines_from(s, i + 1, i + 1)
    } else {
        lines_from(s, i + 1, start)
    }
}

pub open spec fn strip_cr(l: Seq<char>) -> Seq<char> {
    if l.len() > 0 && l.last() == '\r' {
        l.drop_last()
    } else {
        l
    }
}

/// The texts held by a sequence of character vectors.
pub open spec fn views(v: Seq<Vec<char>>) -> Seq<Seq<char>> {
    v.map_values(|l: Vec<char>| l@)
}

pub open spec fn lines(s: Seq<char>) -> Seq<Seq<char>> {
    lines_from(s, 0, 0)
}

/// The whitespace-separated words of `s` from index `i` on, as
/// `str::split_whitespace` yields them; `start` is where the word being read
/// began, if any.
pub open spec fn words_from(s: Seq<char>, i: int, start: Option<int>) -> Seq<Seq<char>>
    decreases s.len() - i,
{
    if i >= s.len() {
        match start {
            Some(b) => seq![s.subrange(b, s.len() as int)],
            None => seq![],
        }
    } else if is_ws(s[i]) {
        match start {
            Some(b) => seq![s.subrange(b, i)] + words_from(s, i + 1, None),
            None => words_from(s, i + 1, None),
        }
    } else {
        words_from(
            s,
            i + 1,
            match start {
                Some(b) => Some(b),
                None => Some(i),
            },
        )
    }
}

pub open spec fn words(s: Seq<char>) -> Seq<Seq<char>> {
    words_from(s, 0, None)
}

/// A copy of `v[from..to]`.
pub fn slice_copy(v: &[char], from: usize, to: usize) -> (r: Vec<char>)
    requires
        from <= to <= v@.len(),
    ensures
        r@ == v@.subrange(from as int, to as int),
{
    let mut r: Vec<char> = Vec::new();
    let mut i: usize = from;
    while i < to
        invariant
            from <= i <= to <= v@.len(),
            r@ == v@.subrange(from as int, i as int),
        decreases to - i,
    {
        r.push(v[i]);
        assert(r@ =~= v@.subrange(from as int, i + 1));
        i += 1;
    }
    r
}

pub fn trim_chars(v: &[char]) -> (r: Vec<char>)
    ensures
        r@ == trim(v@),
{
    let n = v.len();
    let mut i: usize = 0;
    assert(v@.subrange(0, n as int) =~= v@);
    while i < n && is_ws_char(v[i])
        invariant
            i <= n == v@.len(),
            trim_start(v@) == trim_start(v@.subrange(i as int, n as int)),
        decreases n - i,
    {
        assert(v@.subrange(i as int, n as int).drop_first() =~= v@.subrange(i + 1, n as int));
        i += 1;
    }
    assert(trim_start(v@.subrange(i as int, n as int)) == v@.subrange(i as int, n as int));
    let mut j: usize = n;
    while j > i && is_ws_char(v[j - 1])
        invariant
            i <= j <= n == v@.len(),
            trim_end(v@.subrange(i as int, n as int)) == trim_end(v@.subrange(i as int, j as int)),
        decreases j - i,
    {
        assert(v@.subrange(i as int, j as int).drop_last() =~= v@.subrange(i as int, j - 1));
        j -= 1;
    }
    assert(trim_end(v@.subrange(i as int, j as int)) == v@.subrange(i as int, j as int));
    slice_copy(v, i, j)
}

pub fn matches_at_exec(s: &[char], p: &[char], i: usize) -> (r: bool)
    ensures
        r == matches_at(s@, p@, i as int),
{
    if i > s.len() || p.len() > s.len() - i {
        return false;
    }
    let mut k: usize = 0;
    while k < p.len()
        invariant
            i + p.len() <= s.len(),
            i + p@.len() <= s@.len(),
            k <= p@.len(),
            forall|t: int| 0 <= t < k ==> s@[i + t] == p@[t],
        decreases p@.len() - k,
    {
        if s[i + k] != p[k] {
            assert(s@.subrange(i as int, i + p@.len())[k as int] != p@[k as int]);
            return false;
        }
        k += 1;
    }
    assert(s@.subrange(i as int, i + p@.len()) =~= p@);
    true
}

pub fn contains_chars(s: &[char], p: &[char]) -> (r: bool)
    ensures
        r == contains(s@, p@),
{
    if p.len() > s.len() {
        assert forall|i: int| !matches_at(s@, p@, i) by {}
        return false;
    }
    if p.len() == 0 {
        assert(s@.subrange(0, 0) =~= p@);
        assert(matches_at(s@, p@, 0));
        return true;
    }
    let end = s.len() - p.len() + 1;
    let mut i: usize = 0;
    while i < end
        invariant
            end == s@.len() - p@.len() + 1,
            i <= end,
            forall|t: int| 0 <= t < i ==> !matches_at(s@, p@, t),
        decreases end - i,
    {
        if matches_at_exec(s, p, i) {
            return true;
        }
        i += 1;
    }
    false
}

/// `contains` with a literal pattern.
pub fn has_text(s: &[char], p: &str) -> (r: bool)
    ensures
        r == contains(s@, p@),
{
    let pv = chars_of(p);
    contains_chars(s, pv.as_slice())
}

/// `starts_with` with a literal pattern.
pub fn begins(s: &[char], p: &str) -> (r: bool)
    ensures
        r == starts_with(s@, p@),
{
    let pv = chars_of(p);
    matches_at_exec(s, pv.as_slice(), 0)
}

/// `ends_with` with a literal pattern.
pub fn finishes(s: &[char], p: &str) -> (r: bool)
    ensures
        r == ends_with(s@, p@),
{
    let pv = chars_of(p);
    if pv.len() > s.len() {
        return false;
    }
    matches_at_exec(s, pv.as_slice(), s.len() - pv.len())
}

pub proof fn lemma_count_from_bound(s: Seq<char>, p: Seq<char>, i: int)
    requires
        0 <= i <= s.len(),
    ensures
        count_from(s, p, i) <= s.len() - i,
    decreases s.len() - i,
{
    if p.len() == 0 || i + p.len() > s.len() {
    } else if matches_at(s, p, i) {
        lemma_count_from_bound(s, p, i + p.len());
    } else {
        lemma_count_from_bound(s, p, i + 1);
    }
}

/// `count_matches` with a literal pattern.
pub fn count_of(s: &[char], p: &str) -> (r: usize)
    ensures
        r == count_matches(s@, p@),
{
    let pv = chars_of(p);
    let m = pv.len();
    if m == 0 {
        return 0;
    }
    let mut i: usize = 0;
    let mut c: usize = 0;
    proof {
        lemma_count_from_bound(s@, pv@, 0);
    }
    while m <= s.len() - i
        invariant
            m == pv@.len() > 0,
            i <= s@.len(),
            c + count_from(s@, pv@, i as int) == count_from(s@, pv@, 0),
            count_from(s@, pv@, 0) <= s@.len(),
        decreases s@.len() - i,
    {
        if matches_at_exec(s, pv.as_slice(), i) {
            c += 1;
            i += m;
        } else {
            i += 1;
        }
    }
    c
}

/// The lines of `s`, as `lines` models them.
pub fn split_lines(s: &[char]) -> (r: Vec<Vec<char>>)
    ensures
        views(r@) == lines(s@),
{
    let n = s.len();
    let mut r: Vec<Vec<char>> = Vec::new();
    let mut start: usize = 0;
    let mut i: usize = 0;
    while i < n
        invariant
            n == s@.len(),
            start <= i <= n,
            views(r@) + lines_from(s@, i as int, start as int) == lines(s@),
        decreases n - i,
    {
        if s[i] == '\n' {
            let mut end = i;
            if end > start && s[end - 1] == '\r' {
                end -= 1;
            }
            let line = slice_copy(s, start, end);
            assert(line@ == strip_cr(s@.subrange(start as int, i as int))) by {
                if i > start && s@[i - 1] == '\r' {
                    assert(s@.subrange(start as int, i as int).drop_last() =~= s@.subrange(
                        start as int,
                        i - 1,
                    ));
                }
            }
            let ghost before = views(r@);
            r.push(line);
            assert(views(r@) =~= before.push(line@));
            assert(before + lines_from(s@, i as int, start as int) =~= views(r@)
                + lines_from(s@, i + 1, i + 1));
            start = i + 1;
        }
        i += 1;
    }
    if start < n {
        let line = slice_copy(s, start, n);
        let ghost before = views(r@);
        r.push(line);
        assert(views(r@) =~= before.push(line@));
        assert(before + lines_from(s@, i as int, start as int) =~= views(r@));
    } else {
        assert(views(r@) + lines_from(s@, i as int, start as int) =~= views(r@));
    }
    r
}

/// The whitespace-separated words of `s`, as `words` models them.
pub fn split_words(s: &[char]) -> (r: Vec<Vec<char>>)
    ensures
        views(r@) == words(s@),
{
    let n = s.len();
    let mut r: Vec<Vec<char>> = Vec::new();
    let mut in_word = false;
    let mut start: usize = 0;
    let mut i: usize = 0;
    while i < n
        invariant
            n == s@.len(),
            i <= n,
            in_word ==> start < i,
            views(r@) + words_from(s@, i as int, if in_word { Some(start as int) } else { None })
                == words(s@),
        decreases n - i,
    {
        if is_ws_char(s[i]) {
            if in_word {
                let w = slice_copy(s, start, i);
                let ghost before = views(r@);
                r.push(w);
                assert(views(r@) =~= before.push(w@));
                assert(before + words_from(s@, i as int, Some(start as int)) =~= views(r@)
                    + words_from(s@, i + 1, None));
                in_word = false;
            }
        } else if !in_word {
            in_word = true;
            start = i;
        }
        i += 1;
    }
    if in_word {
        let w = slice_copy(s, start, n);
        let ghost before = views(r@);
        r.push(w);
        assert(views(r@) =~= before.push(w@));
        assert(before + words_from(s@, i as int, Some(start as int)) =~= views(r@));
    } else {
        assert(views(r@) + words_from(s@, i as int, None) =~= views(r@));
    }
    r
}

} // verus!

verus! {

/// `n`, or the largest `usize` where `n` exceeds it: counters saturate.
pub open spec fn clamp(n: int) -> int {
    if n > usize::MAX {
        usize::MAX as int
    } else {
        n
    }
}

pub fn sat_add(a: usize, b: usize) -> (r: usize)
    ensures
        r == clamp(a + b),
{
    if a > usize::MAX - b {
        usize::MAX
    } else {
        a + b
    }
}

pub open spec fn digit_char(d: int) -> char {
    if d == 0 {
        '0'
    } else if d == 1 {
        '1'
    } else if d == 2 {
        '2'
    } else if d == 3 {
        '3'
    } else if d == 4 {
        '4'
    } else if d == 5 {
        '5'
    } else if d == 6 {
        '6'
    } else if d == 7 {
        '7'
    } else if d == 8 {
        '8'
    } else {
        '9'
    }
}

pub fn digit_char_exec(d: u64) -> (c: char)
    requires
        d < 10,
    ensures
        c == digit_char(d as int),
{
    if d == 0 {
        '0'
    } else if d == 1 {
        '1'
    } else if d == 2 {
        '2'
    } else if d == 3 {
        '3'
    } else if d == 4 {
        '4'
    } else if d == 5 {
        '5'
    } else if d == 6 {
        '6'
    } else if d == 7 {
        '7'
    } else if d == 8 {
        '8'
    } else {
        '9'
    }
}

} // verus!

verus! {

/// Whether `v` holds exactly the characters of `p`.
pub fn same_text(v: &Vec<char>, p: &str) -> (r: bool)
    ensures
        r == (v@ == p@),
{
    let pv = chars_of(p);
    if pv.len() != v.len() {
        return false;
    }
    let m = matches_at_exec(v.as_slice(), pv.as_slice(), 0);
    assert(m ==> v@.subrange(0, v@.len() as int) =~= v@);
    assert(v@ == pv@ ==> v@.subrange(0, v@.len() as int) =~= v@);
    m
}

} // verus!

verus! {

/// The decimal digits of `n`.
pub open spec fn decimal(n: nat) -> Seq<char>
    decreases n,
{
    if n < 10 {
        seq![digit_char(n as int)]
    } else {
        decimal(n / 10).push(digit_char((n % 10) as int))
    }
}

/// Appends the decimal digits of `n` to `out`.
pub fn push_decimal(out: &mut Vec<char>, n: u64)
    ensures
        final(out)@ == old(out)@ + decimal(n as nat),
    decreases n,
{
    if n < 10 {
        out.push(digit_char_exec(n));
        assert(old(out)@ + decimal(n as nat) =~= old(out)@.push(digit_char(n as int)));
    } else {
        push_decimal(out, n / 10);
        out.push(digit_char_exec(n % 10));
        assert(old(out)@ + decimal(n as nat) =~= old(out)@ + decimal((n / 10) as nat) + seq![
            digit_char((n % 10) as int),
        ]);
    }
}

/// The texts held by a sequence of strings.
pub open spec fn string_views(v: Seq<String>) -> Seq<Seq<char>> {
    v.map_values(|s: String| s@)
}

/// A string holding the characters of a literal.
pub fn owned(s: &str) -> (r: String)
    ensures
        r@ == s@,
{
    s.to_owned()
}

/// The text with every leading copy of `p` removed, as
/// `str::trim_start_matches` does.
pub open spec fn strip_prefix_all(s: Seq<char>, p: Seq<char>) -> Seq<char>
    decreases s.len(),
{
    if p.len() > 0 && starts_with(s, p) {
        strip_prefix_all(s.subrange(p.len() as int, s.len() as int), p)
    } else {
        s
    }
}

pub fn strip_prefix_all_exec(s: &[char], p: &str) -> (r: Vec<char>)
    ensures
        r@ == strip_prefix_all(s@, p@),
{
    let pv = chars_of(p);
    let n = s.len();
    let m = pv.len();
    let mut i: usize = 0;
    assert(s@.subrange(0, n as int) =~= s@);
    while m > 0 && matches_at_exec(s, pv.as_slice(), i)
        invariant
            i <= n == s@.len(),
            m == pv@.len(),
            pv@ == p@,
            strip_prefix_all(s@, p@) == strip_prefix_all(s@.subrange(i as int, n as int), p@),
        decreases n - i,
    {
        let ghost rest = s@.subrange(i as int, n as int);
        assert(rest.subrange(0, m as int) =~= s@.subrange(i as int, i + m));
        assert(rest.subrange(m as int, rest.len() as int) =~= s@.subrange(i + m, n as int));
        i = i + m;
    }
    proof {
        let rest = s@.subrange(i as int, n as int);
        if m > 0 && starts_with(rest, p@) {
            assert(rest.subrange(0, m as int) =~= s@.subrange(i as int, i + m));
        }
    }
    slice_copy(s, i, n)
}

/// The text with every trailing `c` removed, as `str::trim_end_matches` does.
pub open spec fn strip_suffix_char(s: Seq<char>, c: char) -> Seq<char>
    decreases s.len(),
{
    if s.len() > 0 && s.last() == c {
        strip_suffix_char(s.drop_last(), c)
    } else {
        s
    }
}

pub fn strip_suffix_char_exec(s: &[char], c: char) -> (r: Vec<char>)
    ensures
        r@ == strip_suffix_char(s@, c),
{
    let mut j: usize = s.len();
    assert(s@.subrange(0, j as int) =~= s@);
    while j > 0 && s[j - 1] == c
        invariant
            j <= s@.len(),
            strip_suffix_char(s@, c) == strip_suffix_char(s@.subrange(0, j as int), c),
        decreases j,
    {
        assert(s@.subrange(0, j as int).drop_last() =~= s@.subrange(0, j - 1));
        j -= 1;
    }
    slice_copy(s, 0, j)
}

} // verus!

verus! {

/// What `str::to_lowercase` makes of a text.
pub uninterp spec fn lowercase_of(s: Seq<char>) -> Seq<char>;

/// Relies on `str::to_lowercase`: the result depends on the characters alone.
#[verifier::external_body]
pub(crate) fn lowercase(s: &str) -> (r: String)
    ensures
        r@ == lowercase_of(s@),
{
    s.to_lowercase()
}

/// Appends the characters of `p` to `out`.
pub fn push_text(out: &mut Vec<char>, p: &str)
    ensures
        final(out)@ == old(out)@ + p@,
{
    let pv = chars_of(p);
    let mut i: usize = 0;
    while i < pv.len()
        invariant
            i <= pv@.len(),
            pv@ == p@,
            out@ == old(out)@ + pv@.subrange(0, i as int),
        decreases pv@.len() - i,
    {
        out.push(pv[i]);
        assert(pv@.subrange(0, i + 1) =~= pv@.subrange(0, i as int).push(pv@[i as int]));
        i += 1;
    }
    assert(pv@.subrange(0, i as int) =~= pv@);
}

} // verus!
