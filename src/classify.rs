//! The four judgments made of every branch line: hard-coded dates,
//! hard-coded values, purity, and future- or past-oriented logic. Each reads
//! the trimmed line as written, literals included.

use vstd::prelude::*;
use crate::analyzer::ContentAnalyzer;
use crate::text::{
    chars_of, clamp, contains, count_matches, count_of, digit_char, digit_char_exec, has_text, is_digit,
    contains_chars, same_text, sat_add, slice_copy, split_words, views, words,
};

verus! {

/// The four decimal digits of a year.
pub open spec fn year_text(y: int) -> Seq<char> {
    seq![digit_char(y / 1000), digit_char((y / 100) % 10), digit_char((y / 10) % 10), digit_char(y % 10)]
}

/// Some year in `lo..=hi` occurs in `t` as four digits.
pub open spec fn mentions_year(t: Seq<char>, lo: int, hi: int) -> bool {
    exists|y: int| lo <= y <= hi && #[trigger] contains(t, year_text(y))
}

/// The line compares something, or holds a spaced `if`.
pub open spec fn is_comparison(t: Seq<char>) -> bool {
    contains(t, " if "@) || contains(t, "=="@) || contains(t, "!="@) || contains(t, ">"@) || contains(
        t,
        "<"@,
    )
}

/// A word of ten or more digits that starts with `1`: a Unix timestamp.
pub open spec fn is_timestamp_word(w: Seq<char>) -> bool {
    w.len() >= 10 && w[0] == '1' && forall|k: int| 0 <= k < w.len() ==> is_digit(#[trigger] w[k])
}

/// The line holds a date: two `-` or two `/` beside a year of 2019 to 2027; a
/// year of 1990 to 2030 in a comparison; or a timestamp.
pub open spec fn has_hardcoded_date(t: Seq<char>) -> bool {
    ||| count_matches(t, "-"@) >= 2 && mentions_year(t, 2019, 2027)
    ||| count_matches(t, "/"@) >= 2 && mentions_year(t, 2019, 2027)
    ||| is_comparison(t) && mentions_year(t, 1990, 2030)
    ||| exists|k: int| 0 <= k < words(t).len() && is_timestamp_word(#[trigger] words(t)[k])
}

/// Whether some year in `lo..=hi` occurs in `t`.
fn mentions_year_exec(t: &[char], lo: u64, hi: u64) -> (r: bool)
    requires
        lo <= hi < 10000,
    ensures
        r == mentions_year(t@, lo as int, hi as int),
{
    let mut y: u64 = lo;
    while y <= hi
        invariant
            hi < 10000,
            lo <= y <= hi + 1,
            forall|z: int| lo <= z < y ==> !contains(t@, #[trigger] year_text(z)),
        decreases hi + 1 - y,
    {
        let mut v: Vec<char> = Vec::new();
        v.push(digit_char_exec(y / 1000));
        v.push(digit_char_exec((y / 100) % 10));
        v.push(digit_char_exec((y / 10) % 10));
        v.push(digit_char_exec(y % 10));
        assert(v@ =~= year_text(y as int));
        if contains_chars(t, v.as_slice()) {
            return true;
        }
        y += 1;
    }
    false
}

fn is_timestamp_word_exec(w: &[char]) -> (r: bool)
    ensures
        r == is_timestamp_word(w@),
{
    if w.len() < 10 || w[0] != '1' {
        return false;
    }
    let mut k: usize = 0;
    while k < w.len()
        invariant
            k <= w@.len(),
            forall|j: int| 0 <= j < k ==> is_digit(#[trigger] w@[j]),
        decreases w@.len() - k,
    {
        if !('0' <= w[k] && w[k] <= '9') {
            return false;
        }
        k += 1;
    }
    true
}

pub fn has_hardcoded_date_chars(t: &[char]) -> (r: bool)
    ensures
        r == has_hardcoded_date(t@),
{
    if count_of(t, "-") >= 2 && mentions_year_exec(t, 2019, 2027) {
        return true;
    }
    if count_of(t, "/") >= 2 && mentions_year_exec(t, 2019, 2027) {
        return true;
    }
    if (has_text(t, " if ") || has_text(t, "==") || has_text(t, "!=") || has_text(t, ">") || has_text(t, "<"))
        && mentions_year_exec(t, 1990, 2030) {
        return true;
    }
    let ws = split_words(t);
    let mut k: usize = 0;
    while k < ws.len()
        invariant
            views(ws@) == words(t@),
            k <= ws@.len(),
            forall|j: int| 0 <= j < k ==> !is_timestamp_word(#[trigger] words(t@)[j]),
        decreases ws@.len() - k,
    {
        if is_timestamp_word_exec(ws[k].as_slice()) {
            assert(words(t@)[k as int] == ws@[k as int]@);
            return true;
        }
        assert(words(t@)[k as int] == ws@[k as int]@);
        k += 1;
    }
    false
}

/// Characters that a numeric literal may hold here: digits, `-` and `.`.
pub open spec fn is_numeric_char(c: char) -> bool {
    is_digit(c) || c == '-' || c == '.'
}

pub open spec fn strip_front(w: Seq<char>) -> Seq<char>
    decreases w.len(),
{
    if w.len() > 0 && !is_numeric_char(w[0]) {
        strip_front(w.drop_first())
    } else {
        w
    }
}

pub open spec fn strip_back(w: Seq<char>) -> Seq<char>
    decreases w.len(),
{
    if w.len() > 0 && !is_numeric_char(w.last()) {
        strip_back(w.drop_last())
    } else {
        w
    }
}

/// The word with non-numeric characters stripped from both ends.
pub open spec fn numeric_core(w: Seq<char>) -> Seq<char> {
    strip_back(strip_front(w))
}

/// The text after an optional leading minus sign.
pub open spec fn unsigned_part(s: Seq<char>) -> Seq<char> {
    if s.len() > 0 && s[0] == '-' {
        s.drop_first()
    } else {
        s
    }
}

/// `s` (made of digits, `-` and `.`) reads as a decimal number, as `f64`'s
/// `FromStr` accepts one: an optional minus, digits, at most one point, and
/// at least one digit.
pub open spec fn is_decimal(s: Seq<char>) -> bool {
    let b = unsigned_part(s);
    &&& b.len() > 0
    &&& forall|k: int| 0 <= k < b.len() ==> #[trigger] b[k] != '-'
    &&& count_matches(b, "."@) <= 1
    &&& exists|k: int| 0 <= k < b.len() && is_digit(#[trigger] b[k])
}

/// `s` is an optional minus followed by one or more digits.
pub open spec fn is_integer_text(s: Seq<char>) -> bool {
    let b = unsigned_part(s);
    b.len() > 0 && forall|k: int| 0 <= k < b.len() ==> is_digit(#[trigger] b[k])
}

pub open spec fn digits_value(s: Seq<char>) -> nat
    decreases s.len(),
{
    if s.len() == 0 {
        0
    } else {
        digits_value(s.drop_last()) * 10 + ((s.last() as u32) - ('0' as u32)) as nat
    }
}

pub open spec fn integer_value(s: Seq<char>) -> int {
    if s.len() > 0 && s[0] == '-' {
        -digits_value(s.drop_first())
    } else {
        digits_value(s) as int
    }
}

/// `s` parses as an `i32`.
pub open spec fn is_i32_text(s: Seq<char>) -> bool {
    is_integer_text(s) && i32::MIN <= integer_value(s) <= i32::MAX
}

/// Values too common to count as magic: zero, one, minus one and small
/// powers of two.
pub open spec fn is_common_number(c: Seq<char>) -> bool {
    c == "0"@ || c == "1"@ || c == "2"@ || c == "4"@ || c == "8"@ || c == "16"@ || c == "32"@ || c
        == "64"@ || c == "128"@ || c == "256"@ || c == "512"@ || c == "1024"@ || c == "-1"@
}

/// A word that holds a magic number: its numeric core has two or more
/// characters, all numeric, reads as a decimal, is not a common value, and,
/// where it is an `i32`, is not a plausible year (1900 to 2100).
pub open spec fn is_magic_number(w: Seq<char>) -> bool {
    let c = numeric_core(w);
    &&& c.len() >= 2
    &&& forall|k: int| 0 <= k < c.len() ==> is_numeric_char(#[trigger] c[k])
    &&& !is_common_number(c)
    &&& is_decimal(c)
    &&& is_i32_text(c) ==> !(1900 <= integer_value(c) <= 2100)
}

pub open spec fn count_magic(ws: Seq<Seq<char>>) -> nat
    decreases ws.len(),
{
    if ws.len() == 0 {
        0
    } else {
        count_magic(ws.drop_last()) + if is_magic_number(ws.last()) {
            1nat
        } else {
            0nat
        }
    }
}

/// Hard-coded values of a comparison line: its magic numbers, plus one per
/// quoted string where it tests (in)equality.
pub open spec fn hardcoded_value_count(t: Seq<char>) -> nat {
    if is_comparison(t) {
        count_magic(words(t)) + if contains(t, "\""@) && (contains(t, "=="@) || contains(
            t,
            "!="@,
        )) {
            count_matches(t, "\""@) / 2
        } else {
            0
        }
    } else {
        0
    }
}

fn is_numeric_char_exec(c: char) -> (r: bool)
    ensures
        r == is_numeric_char(c),
{
    ('0' <= c && c <= '9') || c == '-' || c == '.'
}

fn numeric_core_exec(w: &[char]) -> (r: Vec<char>)
    ensures
        r@ == numeric_core(w@),
{
    let n = w.len();
    let mut i: usize = 0;
    assert(w@.subrange(0, n as int) =~= w@);
    while i < n && !is_numeric_char_exec(w[i])
        invariant
            i <= n == w@.len(),
            strip_front(w@) == strip_front(w@.subrange(i as int, n as int)),
        decreases n - i,
    {
        assert(w@.subrange(i as int, n as int).drop_first() =~= w@.subrange(i + 1, n as int));
        i += 1;
    }
    assert(strip_front(w@.subrange(i as int, n as int)) == w@.subrange(i as int, n as int));
    let mut j: usize = n;
    while j > i && !is_numeric_char_exec(w[j - 1])
        invariant
            i <= j <= n == w@.len(),
            strip_back(w@.subrange(i as int, n as int)) == strip_back(
                w@.subrange(i as int, j as int),
            ),
        decreases j - i,
    {
        assert(w@.subrange(i as int, j as int).drop_last() =~= w@.subrange(i as int, j - 1));
        j -= 1;
    }
    assert(strip_back(w@.subrange(i as int, j as int)) == w@.subrange(i as int, j as int));
    slice_copy(w, i, j)
}

proof fn lemma_digits_value_push(s: Seq<char>, c: char)
    ensures
        digits_value(s.push(c)) == digits_value(s) * 10 + ((c as u32) - ('0' as u32)) as nat,
{
    assert(s.push(c).drop_last() =~= s);
}

/// Whether the numeric core `c` (all numeric characters) counts as magic.
fn is_magic_core(c: &[char]) -> (r: bool)
    requires
        forall|k: int| 0 <= k < c@.len() ==> is_numeric_char(#[trigger] c@[k]),
    ensures
        r == (c@.len() >= 2 && !is_common_number(c@) && is_decimal(c@) && (is_i32_text(c@)
            ==> !(1900 <= integer_value(c@) <= 2100))),
{
    if c.len() < 2 {
        return false;
    }
    let cv = slice_copy(c, 0, c.len());
    assert(c@.subrange(0, c@.len() as int) =~= c@);
    if is_common_exec(&cv) {
        return false;
    }
    let neg = c[0] == '-';
    let start: usize = if neg { 1 } else { 0 };
    let b = slice_copy(c, start, c.len());
    assert(b@ == unsigned_part(c@)) by {
        if neg {
            assert(c@.drop_first() =~= c@.subrange(1, c@.len() as int));
        } else {
            assert(c@ =~= c@.subrange(0, c@.len() as int));
        }
    }
    if b.len() == 0 {
        return false;
    }
    // Scan the unsigned part: minus signs, points, digits, and the value.
    let mut k: usize = 0;
    let mut saw_digit = false;
    let mut all_digits = true;
    let mut big = false;
    let mut value: u64 = 0;
    while k < b.len()
        invariant
            k <= b@.len(),
            b@ == unsigned_part(c@),
            forall|j: int| 0 <= j < b@.len() ==> is_numeric_char(#[trigger] b@[j]),
            forall|j: int| 0 <= j < k ==> #[trigger] b@[j] != '-',
            saw_digit == exists|j: int| 0 <= j < k && is_digit(#[trigger] b@[j]),
            all_digits == forall|j: int| 0 <= j < k ==> is_digit(#[trigger] b@[j]),
            all_digits && !big ==> value == digits_value(b@.subrange(0, k as int)),
            all_digits && big ==> digits_value(b@.subrange(0, k as int)) > 2147483648,
            value <= 2147483648,
        decreases b@.len() - k,
    {
        let ch = b[k];
        assert(b@.subrange(0, k + 1) =~= b@.subrange(0, k as int).push(ch));
        proof {
            lemma_digits_value_push(b@.subrange(0, k as int), ch);
        }
        if ch == '-' {
            assert(unsigned_part(c@)[k as int] == '-');
            return false;
        }
        if '0' <= ch && ch <= '9' {
            saw_digit = true;
            if all_digits && !big {
                let d = (ch as u32 - '0' as u32) as u64;
                if value * 10 + d > 2147483648 {
                    big = true;
                } else {
                    value = value * 10 + d;
                }
            }
        } else {
            all_digits = false;
        }
        k += 1;
    }
    assert(b@.subrange(0, b@.len() as int) =~= b@);
    let points = count_of(b.as_slice(), ".");
    if points > 1 || !saw_digit {
        return false;
    }
    if !all_digits {
        return true;
    }
    // An integer: it is an i32 unless its magnitude is too large.
    let fits = if big {
        false
    } else if neg {
        value <= 2147483648
    } else {
        value <= 2147483647
    };
    proof {
        if neg {
            assert(c@.drop_first() =~= b@);
        }
    }
    if !fits {
        return true;
    }
    let v: i64 = if neg { -(value as i64) } else { value as i64 };
    !(1900 <= v && v <= 2100)
}

fn is_common_exec(c: &Vec<char>) -> (r: bool)
    ensures
        r == is_common_number(c@),
{
    same_text(c, "0") || same_text(c, "1") || same_text(c, "2") || same_text(c, "4")
        || same_text(c, "8") || same_text(c, "16") || same_text(c, "32") || same_text(c, "64")
        || same_text(c, "128") || same_text(c, "256") || same_text(c, "512") || same_text(c, "1024")
        || same_text(c, "-1")
}

/// The number of hard-coded values on the trimmed line `t`, saturating.
pub fn hardcoded_value_count_chars(t: &[char]) -> (r: usize)
    ensures
        r == clamp(hardcoded_value_count(t@) as int),
{
    if !(has_text(t, " if ") || has_text(t, "==") || has_text(t, "!=") || has_text(t, ">") || has_text(t, "<")) {
        return 0;
    }
    let ws = split_words(t);
    let mut k: usize = 0;
    let mut count: usize = 0;
    while k < ws.len()
        invariant
            views(ws@) == words(t@),
            k <= ws@.len(),
            count == count_magic(words(t@).subrange(0, k as int)),
            count <= k,
        decreases ws@.len() - k,
    {
        let core = numeric_core_exec(ws[k].as_slice());
        let mut all = true;
        let mut j: usize = 0;
        while j < core.len()
            invariant
                j <= core@.len(),
                all == forall|i: int| 0 <= i < j ==> is_numeric_char(#[trigger] core@[i]),
            decreases core@.len() - j,
        {
            if !is_numeric_char_exec(core[j]) {
                all = false;
            }
            j += 1;
        }
        let magic = all && is_magic_core(core.as_slice());
        assert(words(t@)[k as int] == ws@[k as int]@);
        assert(words(t@).subrange(0, k + 1).drop_last() =~= words(t@).subrange(0, k as int));
        if magic {
            count += 1;
        }
        k += 1;
    }
    assert(words(t@).subrange(0, k as int) =~= words(t@));
    if has_text(t, "\"") && (has_text(t, "==") || has_text(t, "!=")) {
        let quotes = count_of(t, "\"");
        sat_add(count, quotes / 2)
    } else {
        count
    }
}

/// Markers of I/O, clock, environment, global state, randomness or network.
pub open spec fn is_non_pure(t: Seq<char>) -> bool {
    contains(t, "fs::"@) || contains(t, "File::"@) || contains(t, "Path::"@) || contains(
        t,
        "SystemTime::"@,
    ) || contains(t, "Instant::"@) || contains(t, "environment_var"@) || contains(t, "GLOBAL_"@)
        || contains(t, "rand::"@) || contains(t, ".gen_bool"@) || contains(t, ".read("@)
        || contains(t, ".write("@) || contains(t, "http_client"@) || contains(t, "socket"@)
}

pub fn is_non_pure_chars(t: &[char]) -> (r: bool)
    ensures
        r == is_non_pure(t@),
{
    has_text(t, "fs::") || has_text(t, "File::") || has_text(t, "Path::") || has_text(t, "SystemTime::") || has_text(
        t,
        "Instant::",
    ) || has_text(t, "environment_var") || has_text(t, "GLOBAL_") || has_text(t, "rand::") || has_text(t, ".gen_bool")
        || has_text(t, ".read(") || has_text(t, ".write(") || has_text(t, "http_client") || has_text(t, "socket")
}

/// Logic gated on the future: a line with `if` that names 2025 to 2027,
/// compares `>=` with a version `"2.` or `"3.`, checks a high API level or
/// version, or reads feature flags.
pub open spec fn is_future_logic(t: Seq<char>) -> bool {
    contains(t, "if"@) && (contains(t, "2025"@) || contains(t, "2026"@) || contains(t, "2027"@) || (
    contains(t, ">="@) && (contains(t, "\"2."@) || contains(t, "\"3."@))) || contains(
        t,
        "api_level >="@,
    ) || contains(t, "api_version >="@) || contains(t, "feature_flags"@) || contains(
        t,
        "beta_features"@,
    ))
}

pub fn is_future_logic_chars(t: &[char]) -> (r: bool)
    ensures
        r == is_future_logic(t@),
{
    has_text(t, "if") && (has_text(t, "2025") || has_text(t, "2026") || has_text(t, "2027") || (has_text(t, ">=") && (has_text(
        t,
        "\"2.",
    ) || has_text(t, "\"3."))) || has_text(t, "api_level >=") || has_text(t, "api_version >=") || has_text(
        t,
        "feature_flags",
    ) || has_text(t, "beta_features"))
}

/// Logic gated on the past: a line with `if` that names 2020 to 2022,
/// compares `<` with a version `"1.` or `"0.`, checks a low API level or
/// version, or speaks of deprecation or end of support.
pub open spec fn is_past_logic(t: Seq<char>) -> bool {
    contains(t, "if"@) && (contains(t, "2020"@) || contains(t, "2021"@) || contains(t, "2022"@) || (
    contains(t, "<"@) && (contains(t, "\"1."@) || contains(t, "\"0."@))) || contains(
        t,
        "api_level <"@,
    ) || contains(t, "api_version <"@) || contains(t, "deprecated"@) || contains(
        t,
        "end_of_life"@,
    ) || contains(t, "support_end"@))
}

pub fn is_past_logic_chars(t: &[char]) -> (r: bool)
    ensures
        r == is_past_logic(t@),
{
    has_text(t, "if") && (has_text(t, "2020") || has_text(t, "2021") || has_text(t, "2022") || (has_text(t, "<") && (has_text(
        t,
        "\"1.",
    ) || has_text(t, "\"0."))) || has_text(t, "api_level <") || has_text(t, "api_version <") || has_text(
        t,
        "deprecated",
    ) || has_text(t, "end_of_life") || has_text(t, "support_end"))
}

impl ContentAnalyzer {
    /// Whether the line holds a hard-coded date (see `has_hardcoded_date`).
    pub fn detect_hardcoded_dates(&self, line: &str) -> (r: bool)
        ensures
            r == has_hardcoded_date(line@),
    {
        let v = chars_of(line);
        has_hardcoded_date_chars(v.as_slice())
    }

    /// The number of hard-coded values on the line, saturating.
    pub fn count_hardcoded_values(&self, line: &str) -> (r: usize)
        ensures
            r == clamp(hardcoded_value_count(line@) as int),
    {
        let v = chars_of(line);
        hardcoded_value_count_chars(v.as_slice())
    }

    /// Whether the line is pure: it shows no marker of a side effect. The
    /// language does not change the markers.
    pub fn analyze_branch_purity(&self, line: &str, _language: &Option<String>) -> (r: bool)
        ensures
            r == !is_non_pure(line@),
    {
        let v = chars_of(line);
        !is_non_pure_chars(v.as_slice())
    }

    pub fn detect_future_logic(&self, line: &str) -> (r: bool)
        ensures
            r == is_future_logic(line@),
    {
        let v = chars_of(line);
        is_future_logic_chars(v.as_slice())
    }

    pub fn detect_past_logic(&self, line: &str) -> (r: bool)
        ensures
            r == is_past_logic(line@),
    {
        let v = chars_of(line);
        is_past_logic_chars(v.as_slice())
    }
}

} // verus!
