//! Source languages and the recognizers that find branch constructs in a
//! sanitized line.

use vstd::prelude::*;
use crate::text::{
    chars_of, contains, count_matches, count_of, ends_with, has_text, begins, finishes, is_ws,
    is_ws_char, matches_at, matches_at_exec, same_text, starts_with, trim, trim_chars,
};

verus! {

/// The language families that the branch recognizers tell apart.
#[derive(Clone, Copy, Debug, PartialEq, Eq, Structural)]
pub enum Language {
    Rust,
    JsTs,
    Python,
    Java,
    Go,
    CFamily,
    Generic,
}

/// The text of an optional string.
pub open spec fn opt_text(name: &Option<String>) -> Option<Seq<char>> {
    match name {
        Some(s) => Some(s@),
        None => None,
    }
}

/// The family of a language name as `detect_language` gives it; an unknown
/// or missing name is `Generic`.
pub open spec fn language_of(name: Option<Seq<char>>) -> Language {
    match name {
        Some(n) => if n == "rust"@ {
            Language::Rust
        } else if n == "javascript"@ || n == "typescript"@ {
            Language::JsTs
        } else if n == "python"@ {
            Language::Python
        } else if n == "java"@ {
            Language::Java
        } else if n == "go"@ {
            Language::Go
        } else if n == "c"@ || n == "cpp"@ {
            Language::CFamily
        } else {
            Language::Generic
        },
        None => Language::Generic,
    }
}

impl Language {
    pub fn from_name(name: &Option<String>) -> (r: Language)
        ensures
            r == language_of(opt_text(name)),
    {
        match name {
            Some(s) => {
                let n = chars_of(s.as_str());
                if same_text(&n, "rust") {
                    Language::Rust
                } else if same_text(&n, "javascript") || same_text(&n, "typescript") {
                    Language::JsTs
                } else if same_text(&n, "python") {
                    Language::Python
                } else if same_text(&n, "java") {
                    Language::Java
                } else if same_text(&n, "go") {
                    Language::Go
                } else if same_text(&n, "c") || same_text(&n, "cpp") {
                    Language::CFamily
                } else {
                    Language::Generic
                }
            },
            None => Language::Generic,
        }
    }
}

/// A character after which a keyword may start.
pub open spec fn is_boundary(c: char) -> bool {
    is_ws(c) || c == '{' || c == '(' || c == ')' || c == ';'
}

/// `kw` starts at index `i` of `s`, at the line start or after a boundary.
pub open spec fn keyword_at(s: Seq<char>, kw: Seq<char>, i: int) -> bool {
    matches_at(s, kw, i) && (i == 0 || is_boundary(s[i - 1]))
}

/// Number of indices from `i` on where `kw` starts as a keyword.
pub open spec fn keyword_count_from(s: Seq<char>, kw: Seq<char>, i: int) -> nat
    decreases s.len() - i,
{
    if i < 0 || i >= s.len() {
        0
    } else {
        keyword_count_from(s, kw, i + 1) + if keyword_at(s, kw, i) {
            1nat
        } else {
            0nat
        }
    }
}

pub open spec fn keyword_count(s: Seq<char>, kw: Seq<char>) -> nat {
    keyword_count_from(s, kw, 0)
}

fn is_boundary_exec(c: char) -> (r: bool)
    ensures
        r == is_boundary(c),
{
    is_ws_char(c) || c == '{' || c == '(' || c == ')' || c == ';'
}

pub fn keyword_count_exec(s: &[char], kw: &str) -> (r: usize)
    ensures
        r == keyword_count(s@, kw@),
{
    let k = chars_of(kw);
    let n = s.len();
    let mut i: usize = n;
    let mut c: usize = 0;
    while i > 0
        invariant
            i <= n == s@.len(),
            k@ == kw@,
            c + i <= n,
            c == keyword_count_from(s@, kw@, i as int),
        decreases i,
    {
        i -= 1;
        if matches_at_exec(s, k.as_slice(), i) && (i == 0 || is_boundary_exec(s[i - 1])) {
            c += 1;
        }
    }
    c
}

/// What one sanitized line holds, for the profile.
pub struct LineKinds {
    /// Conditional constructs counted.
    pub conditionals: nat,
    pub loops: nat,
    pub switches: nat,
    /// Decision points: what the line adds to cyclomatic complexity.
    pub decisions: nat,
    /// Short-circuit connectives.
    pub logical: nat,
    pub is_branch: bool,
    pub is_conditional: bool,
    pub is_loop: bool,
}

pub open spec fn one_if(b: bool) -> nat {
    if b {
        1
    } else {
        0
    }
}

/// `if` written with spaces around it, or opening the line.
pub open spec fn has_spaced_if(cl: Seq<char>) -> bool {
    contains(cl, " if "@) || starts_with(cl, "if "@)
}

/// The Rust recognizers: every `if` keyword, `match`, every `while`, `for`
/// and `loop` keyword, and a `=>` arm.
pub open spec fn rust_kinds(cl: Seq<char>) -> LineKinds {
    let ifs = keyword_count(cl, "if "@);
    let is_match = contains(cl, " match "@) || starts_with(cl, "match "@);
    let loops = keyword_count(cl, "while "@) + keyword_count(cl, "for "@) + keyword_count(
        cl,
        "loop "@,
    );
    let arm = contains(cl, "=>"@) && !contains(cl, "//"@);
    LineKinds {
        conditionals: ifs + one_if(arm),
        loops: loops,
        switches: one_if(is_match),
        decisions: ifs + one_if(is_match) + loops + one_if(arm),
        logical: count_matches(cl, " && "@) + count_matches(cl, " || "@),
        is_branch: ifs > 0 || is_match || loops > 0 || arm,
        is_conditional: ifs > 0 || arm,
        is_loop: loops > 0,
    }
}

/// The JavaScript and TypeScript recognizers: `if`, `switch`, loops, a
/// `case` label and the ternary operator.
pub open spec fn js_kinds(cl: Seq<char>) -> LineKinds {
    let is_if = has_spaced_if(cl);
    let is_switch = contains(cl, " switch "@) || starts_with(cl, "switch "@);
    let is_loop = has_spaced_loop(cl);
    let is_case = starts_with(trim(cl), "case "@);
    let is_ternary = contains(cl, " ? "@) && contains(cl, " : "@);
    LineKinds {
        conditionals: one_if(is_if) + one_if(is_ternary),
        loops: one_if(is_loop),
        switches: one_if(is_switch),
        decisions: one_if(is_if) + one_if(is_switch) + one_if(is_loop) + one_if(is_case) + one_if(
            is_ternary,
        ),
        logical: count_matches(cl, " && "@) + count_matches(cl, " || "@),
        is_branch: is_if || is_switch || is_loop || is_case || is_ternary,
        is_conditional: is_if || is_case || is_ternary,
        is_loop: is_loop,
    }
}

/// The Python recognizers: `if` (also a trailing one), loops and `except`.
pub open spec fn python_kinds(cl: Seq<char>) -> LineKinds {
    let is_if = has_spaced_if(cl) || ends_with(cl, " if"@);
    let is_loop = has_spaced_loop(cl);
    let is_except = contains(cl, "except "@);
    LineKinds {
        conditionals: one_if(is_if) + one_if(is_except),
        loops: one_if(is_loop),
        switches: 0,
        decisions: one_if(is_if) + one_if(is_loop) + one_if(is_except),
        logical: count_matches(cl, " and "@) + count_matches(cl, " or "@),
        is_branch: is_if || is_loop || is_except,
        is_conditional: is_if || is_except,
        is_loop: is_loop,
    }
}

/// The common recognizers: `if`, `while`, `for`, `switch`, and both spellings
/// of the logical connectives.
pub open spec fn generic_kinds(cl: Seq<char>) -> LineKinds {
    let is_if = has_spaced_if(cl);
    let is_loop = has_spaced_loop(cl);
    let is_switch = contains(cl, " switch "@) || starts_with(cl, "switch "@);
    LineKinds {
        conditionals: one_if(is_if),
        loops: one_if(is_loop),
        switches: one_if(is_switch),
        decisions: one_if(is_if) + one_if(is_loop) + one_if(is_switch),
        logical: count_matches(cl, " && "@) + count_matches(cl, " || "@) + count_matches(
            cl,
            " and "@,
        ) + count_matches(cl, " or "@),
        is_branch: is_if || is_loop || is_switch,
        is_conditional: is_if,
        is_loop: is_loop,
    }
}

/// A keyword written with spaces around it, or opening the line.
pub open spec fn has_spaced(cl: Seq<char>, spaced: Seq<char>, leading: Seq<char>) -> bool {
    contains(cl, spaced) || starts_with(cl, leading)
}

/// A `while` or `for` keyword, spaced or opening the line.
pub open spec fn has_spaced_loop(cl: Seq<char>) -> bool {
    has_spaced(cl, " while "@, "while "@) || has_spaced(cl, " for "@, "for "@)
}

/// The Java recognizers: `if`, `switch`, `while` and `for` loops, a `case`
/// label, and `catch`, which counts as a conditional.
pub open spec fn java_kinds(cl: Seq<char>) -> LineKinds {
    let is_if = has_spaced_if(cl);
    let is_switch = has_spaced(cl, " switch "@, "switch "@);
    let is_loop = has_spaced_loop(cl);
    let is_case = starts_with(trim(cl), "case "@);
    let is_catch = has_spaced(cl, " catch "@, "catch "@);
    LineKinds {
        conditionals: one_if(is_if) + one_if(is_catch),
        loops: one_if(is_loop),
        switches: one_if(is_switch),
        decisions: one_if(is_if) + one_if(is_switch) + one_if(is_loop) + one_if(is_case) + one_if(
            is_catch,
        ),
        logical: count_matches(cl, " && "@) + count_matches(cl, " || "@),
        is_branch: is_if || is_switch || is_loop || is_case || is_catch,
        is_conditional: is_if || is_case || is_catch,
        is_loop: is_loop,
    }
}

/// The Go recognizers: `if`, `switch` and `select`, `for` loops and a `case`
/// label.
pub open spec fn go_kinds(cl: Seq<char>) -> LineKinds {
    let is_if = has_spaced_if(cl);
    let is_switch = has_spaced(cl, " switch "@, "switch "@);
    let is_select = has_spaced(cl, " select "@, "select "@);
    let is_loop = has_spaced(cl, " for "@, "for "@);
    let is_case = starts_with(trim(cl), "case "@);
    LineKinds {
        conditionals: one_if(is_if),
        loops: one_if(is_loop),
        switches: one_if(is_switch || is_select),
        decisions: one_if(is_if) + one_if(is_switch) + one_if(is_select) + one_if(is_loop) + one_if(
            is_case,
        ),
        logical: count_matches(cl, " && "@) + count_matches(cl, " || "@),
        is_branch: is_if || is_switch || is_select || is_loop || is_case,
        is_conditional: is_if || is_case,
        is_loop: is_loop,
    }
}

/// The C and C++ recognizers: `if`, `switch`, `while` and `for` loops, a
/// `case` label and the ternary operator.
pub open spec fn c_kinds(cl: Seq<char>) -> LineKinds {
    let is_if = has_spaced_if(cl);
    let is_switch = has_spaced(cl, " switch "@, "switch "@);
    let is_loop = has_spaced_loop(cl);
    let is_case = starts_with(trim(cl), "case "@);
    let is_ternary = contains(cl, " ? "@) && contains(cl, " : "@);
    LineKinds {
        conditionals: one_if(is_if) + one_if(is_ternary),
        loops: one_if(is_loop),
        switches: one_if(is_switch),
        decisions: one_if(is_if) + one_if(is_switch) + one_if(is_loop) + one_if(is_case) + one_if(
            is_ternary,
        ),
        logical: count_matches(cl, " && "@) + count_matches(cl, " || "@),
        is_branch: is_if || is_switch || is_loop || is_case || is_ternary,
        is_conditional: is_if || is_case || is_ternary,
        is_loop: is_loop,
    }
}

/// The recognizers of a language applied to a sanitized line.
pub open spec fn line_kinds(lang: Language, cl: Seq<char>) -> LineKinds {
    match lang {
        Language::Rust => rust_kinds(cl),
        Language::JsTs => js_kinds(cl),
        Language::Python => python_kinds(cl),
        Language::Java => java_kinds(cl),
        Language::Go => go_kinds(cl),
        Language::CFamily => c_kinds(cl),
        Language::Generic => generic_kinds(cl),
    }
}

/// The executable form of `LineKinds`; counts saturate.
pub struct LineCounts {
    pub conditionals: usize,
    pub loops: usize,
    pub switches: usize,
    pub decisions: usize,
    pub logical: usize,
    pub is_branch: bool,
    pub is_conditional: bool,
    pub is_loop: bool,
}

impl LineCounts {
    pub open spec fn models(&self, k: LineKinds) -> bool {
        &&& self.conditionals == crate::text::clamp(k.conditionals as int)
        &&& self.loops == crate::text::clamp(k.loops as int)
        &&& self.switches == k.switches
        &&& self.switches <= 1
        &&& self.decisions == crate::text::clamp(k.decisions as int)
        &&& self.logical == crate::text::clamp(k.logical as int)
        &&& self.is_branch == k.is_branch
        &&& self.is_conditional == k.is_conditional
        &&& self.is_loop == k.is_loop
    }
}

fn b2u(b: bool) -> (r: usize)
    ensures
        r == one_if(b),
{
    if b {
        1
    } else {
        0
    }
}

use crate::text::sat_add;

fn rust_counts(cl: &[char]) -> (r: LineCounts)
    ensures
        r.models(rust_kinds(cl@)),
{
    let ifs = keyword_count_exec(cl, "if ");
    let is_match = has_text(cl, " match ") || begins(cl, "match ");
    let loops = sat_add(
        sat_add(keyword_count_exec(cl, "while "), keyword_count_exec(cl, "for ")),
        keyword_count_exec(cl, "loop "),
    );
    let arm = has_text(cl, "=>") && !has_text(cl, "//");
    let decisions = sat_add(sat_add(sat_add(ifs, b2u(is_match)), loops), b2u(arm));
    LineCounts {
        conditionals: sat_add(ifs, b2u(arm)),
        loops: loops,
        switches: b2u(is_match),
        decisions: decisions,
        logical: sat_add(count_of(cl, " && "), count_of(cl, " || ")),
        is_branch: ifs > 0 || is_match || loops > 0 || arm,
        is_conditional: ifs > 0 || arm,
        is_loop: loops > 0,
    }
}

fn spaced_if(cl: &[char]) -> (r: bool)
    ensures
        r == has_spaced_if(cl@),
{
    has_text(cl, " if ") || begins(cl, "if ")
}

fn js_counts(cl: &[char]) -> (r: LineCounts)
    ensures
        r.models(js_kinds(cl@)),
{
    let is_if = spaced_if(cl);
    let is_switch = has_text(cl, " switch ") || begins(cl, "switch ");
    let is_loop = spaced_loop(cl);
    let t = trim_chars(cl);
    let is_case = begins(t.as_slice(), "case ");
    let is_ternary = has_text(cl, " ? ") && has_text(cl, " : ");
    LineCounts {
        conditionals: b2u(is_if) + b2u(is_ternary),
        loops: b2u(is_loop),
        switches: b2u(is_switch),
        decisions: b2u(is_if) + b2u(is_switch) + b2u(is_loop) + b2u(is_case) + b2u(is_ternary),
        logical: sat_add(count_of(cl, " && "), count_of(cl, " || ")),
        is_branch: is_if || is_switch || is_loop || is_case || is_ternary,
        is_conditional: is_if || is_case || is_ternary,
        is_loop: is_loop,
    }
}

fn python_counts(cl: &[char]) -> (r: LineCounts)
    ensures
        r.models(python_kinds(cl@)),
{
    let is_if = spaced_if(cl) || finishes(cl, " if");
    let is_loop = has_text(cl, " while ") || has_text(cl, " for ") || begins(cl, "for ") || begins(
        cl,
        "while ",
    );
    let is_except = has_text(cl, "except ");
    LineCounts {
        conditionals: b2u(is_if) + b2u(is_except),
        loops: b2u(is_loop),
        switches: 0,
        decisions: b2u(is_if) + b2u(is_loop) + b2u(is_except),
        logical: sat_add(count_of(cl, " and "), count_of(cl, " or ")),
        is_branch: is_if || is_loop || is_except,
        is_conditional: is_if || is_except,
        is_loop: is_loop,
    }
}

fn generic_counts(cl: &[char]) -> (r: LineCounts)
    ensures
        r.models(generic_kinds(cl@)),
{
    let is_if = spaced_if(cl);
    let is_loop = spaced_loop(cl);
    let is_switch = has_text(cl, " switch ") || begins(cl, "switch ");
    let logical = sat_add(
        sat_add(sat_add(count_of(cl, " && "), count_of(cl, " || ")), count_of(cl, " and ")),
        count_of(cl, " or "),
    );
    LineCounts {
        conditionals: b2u(is_if),
        loops: b2u(is_loop),
        switches: b2u(is_switch),
        decisions: b2u(is_if) + b2u(is_loop) + b2u(is_switch),
        logical: logical,
        is_branch: is_if || is_loop || is_switch,
        is_conditional: is_if,
        is_loop: is_loop,
    }
}

fn spaced(cl: &[char], spaced_kw: &str, leading: &str) -> (r: bool)
    ensures
        r == has_spaced(cl@, spaced_kw@, leading@),
{
    has_text(cl, spaced_kw) || begins(cl, leading)
}

pub fn spaced_loop(cl: &[char]) -> (r: bool)
    ensures
        r == has_spaced_loop(cl@),
{
    spaced(cl, " while ", "while ") || spaced(cl, " for ", "for ")
}

fn case_label(cl: &[char]) -> (r: bool)
    ensures
        r == starts_with(trim(cl@), "case "@),
{
    let t = trim_chars(cl);
    begins(t.as_slice(), "case ")
}

fn java_counts(cl: &[char]) -> (r: LineCounts)
    ensures
        r.models(java_kinds(cl@)),
{
    let is_if = spaced_if(cl);
    let is_switch = spaced(cl, " switch ", "switch ");
    let is_loop = spaced_loop(cl);
    let is_case = case_label(cl);
    let is_catch = spaced(cl, " catch ", "catch ");
    LineCounts {
        conditionals: b2u(is_if) + b2u(is_catch),
        loops: b2u(is_loop),
        switches: b2u(is_switch),
        decisions: b2u(is_if) + b2u(is_switch) + b2u(is_loop) + b2u(is_case) + b2u(is_catch),
        logical: sat_add(count_of(cl, " && "), count_of(cl, " || ")),
        is_branch: is_if || is_switch || is_loop || is_case || is_catch,
        is_conditional: is_if || is_case || is_catch,
        is_loop: is_loop,
    }
}

fn go_counts(cl: &[char]) -> (r: LineCounts)
    ensures
        r.models(go_kinds(cl@)),
{
    let is_if = spaced_if(cl);
    let is_switch = spaced(cl, " switch ", "switch ");
    let is_select = spaced(cl, " select ", "select ");
    let is_loop = spaced(cl, " for ", "for ");
    let is_case = case_label(cl);
    LineCounts {
        conditionals: b2u(is_if),
        loops: b2u(is_loop),
        switches: b2u(is_switch || is_select),
        decisions: b2u(is_if) + b2u(is_switch) + b2u(is_select) + b2u(is_loop) + b2u(is_case),
        logical: sat_add(count_of(cl, " && "), count_of(cl, " || ")),
        is_branch: is_if || is_switch || is_select || is_loop || is_case,
        is_conditional: is_if || is_case,
        is_loop: is_loop,
    }
}

fn c_counts(cl: &[char]) -> (r: LineCounts)
    ensures
        r.models(c_kinds(cl@)),
{
    let is_if = spaced_if(cl);
    let is_switch = spaced(cl, " switch ", "switch ");
    let is_loop = spaced_loop(cl);
    let is_case = case_label(cl);
    let is_ternary = has_text(cl, " ? ") && has_text(cl, " : ");
    LineCounts {
        conditionals: b2u(is_if) + b2u(is_ternary),
        loops: b2u(is_loop),
        switches: b2u(is_switch),
        decisions: b2u(is_if) + b2u(is_switch) + b2u(is_loop) + b2u(is_case) + b2u(is_ternary),
        logical: sat_add(count_of(cl, " && "), count_of(cl, " || ")),
        is_branch: is_if || is_switch || is_loop || is_case || is_ternary,
        is_conditional: is_if || is_case || is_ternary,
        is_loop: is_loop,
    }
}

/// Applies the recognizers of `lang` to the sanitized line `cl`.
pub fn line_counts(lang: Language, cl: &[char]) -> (r: LineCounts)
    ensures
        r.models(line_kinds(lang, cl@)),
{
    match lang {
        Language::Rust => rust_counts(cl),
        Language::JsTs => js_counts(cl),
        Language::Python => python_counts(cl),
        Language::Java => java_counts(cl),
        Language::Go => go_counts(cl),
        Language::CFamily => c_counts(cl),
        Language::Generic => generic_counts(cl),
    }
}

} // verus!
