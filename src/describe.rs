//! Short descriptions of a file: its language, a summary line, exported and
//! imported names, public API declarations, and its purpose.

use vstd::prelude::*;
use crate::analyzer::ContentAnalyzer;
use crate::language::opt_text;
use crate::text::{
    begins, chars_of, contains, decimal, has_text, lines, owned, push_decimal, same_text,
    slice_copy, split_lines, split_words, starts_with, string_of, string_views,
    strip_prefix_all, strip_prefix_all_exec, strip_suffix_char, strip_suffix_char_exec, trim,
    trim_chars, views, words,
};

verus! {

/// Index of the last `.` before index `i` in the final path part, or -1
/// where that part (which starts after the last `/`) holds none.
pub open spec fn last_dot_before(s: Seq<char>, i: int) -> int
    decreases i,
{
    if i <= 0 || i > s.len() || s[i - 1] == '/' {
        -1
    } else if s[i - 1] == '.' {
        i - 1
    } else {
        last_dot_before(s, i - 1)
    }
}

/// The extension of a path, as `Path::extension` gives it: the text after the
/// last `.` of its final part (trailing `/` ignored), where that `.` is not
/// the part's first character.
pub open spec fn extension_of(path: Seq<char>) -> Option<Seq<char>> {
    let name = strip_suffix_char(path, '/');
    let d = last_dot_before(name, name.len() as int);
    if d > 0 && name[d - 1] != '/' {
        Some(name.subrange(d + 1, name.len() as int))
    } else {
        None
    }
}

/// The language name for a file extension.
pub open spec fn language_for_extension(e: Seq<char>) -> Option<Seq<char>> {
    if e == "rs"@ {
        Some("rust"@)
    } else if e == "py"@ {
        Some("python"@)
    } else if e == "js"@ || e == "jsx"@ {
        Some("javascript"@)
    } else if e == "ts"@ || e == "tsx"@ {
        Some("typescript"@)
    } else if e == "go"@ {
        Some("go"@)
    } else if e == "java"@ {
        Some("java"@)
    } else if e == "c"@ || e == "h"@ || e == "hpp"@ {
        Some("c"@)
    } else if e == "cpp"@ || e == "cxx"@ || e == "cc"@ {
        Some("cpp"@)
    } else if e == "md"@ {
        Some("markdown"@)
    } else if e == "json"@ {
        Some("json"@)
    } else if e == "yaml"@ || e == "yml"@ {
        Some("yaml"@)
    } else if e == "toml"@ {
        Some("toml"@)
    } else if e == "sh"@ || e == "bash"@ {
        Some("shell"@)
    } else {
        None
    }
}

pub open spec fn language_of_file(name: Seq<char>) -> Option<Seq<char>> {
    match extension_of(name) {
        Some(e) => language_for_extension(e),
        None => None,
    }
}

fn some_name(s: &str) -> (r: Option<String>)
    ensures
        opt_text(&r) == Some(s@),
{
    Some(owned(s))
}

fn language_for_extension_exec(e: &Vec<char>) -> (r: Option<String>)
    ensures
        opt_text(&r) == language_for_extension(e@),
{
    if same_text(e, "rs") {
        some_name("rust")
    } else if same_text(e, "py") {
        some_name("python")
    } else if same_text(e, "js") || same_text(e, "jsx") {
        some_name("javascript")
    } else if same_text(e, "ts") || same_text(e, "tsx") {
        some_name("typescript")
    } else if same_text(e, "go") {
        some_name("go")
    } else if same_text(e, "java") {
        some_name("java")
    } else if same_text(e, "c") || same_text(e, "h") || same_text(e, "hpp") {
        some_name("c")
    } else if same_text(e, "cpp") || same_text(e, "cxx") || same_text(e, "cc") {
        some_name("cpp")
    } else if same_text(e, "md") {
        some_name("markdown")
    } else if same_text(e, "json") {
        some_name("json")
    } else if same_text(e, "yaml") || same_text(e, "yml") {
        some_name("yaml")
    } else if same_text(e, "toml") {
        some_name("toml")
    } else if same_text(e, "sh") || same_text(e, "bash") {
        some_name("shell")
    } else {
        None
    }
}

/// Whether the language is the one named `lit`.
pub fn name_is(language: &Option<String>, lit: &str) -> (r: bool)
    ensures
        r == (opt_text(language) == Some(lit@)),
{
    match language {
        Some(s) => {
            let v = chars_of(s.as_str());
            same_text(&v, lit)
        },
        None => false,
    }
}

/// Bytes that UTF-8 takes for one character.
pub open spec fn utf8_width(c: char) -> nat {
    let u = c as u32;
    if u < 0x80 {
        1
    } else if u < 0x800 {
        2
    } else if u < 0x10000 {
        3
    } else {
        4
    }
}

/// The UTF-8 length of a text, in bytes.
pub open spec fn utf8_len(s: Seq<char>) -> nat
    decreases s.len(),
{
    if s.len() == 0 {
        0
    } else {
        utf8_len(s.drop_last()) + utf8_width(s.last())
    }
}

proof fn lemma_utf8_len_prefix(s: Seq<char>, k: int)
    requires
        0 <= k <= s.len(),
    ensures
        utf8_len(s.subrange(0, k)) <= utf8_len(s),
    decreases s.len() - k,
{
    if k < s.len() {
        lemma_utf8_len_prefix(s, k + 1);
        assert(s.subrange(0, k + 1).drop_last() =~= s.subrange(0, k));
    } else {
        assert(s.subrange(0, k) =~= s);
    }
}

/// Whether the text takes more than ten bytes.
fn longer_than_ten_bytes(s: &[char]) -> (r: bool)
    ensures
        r == (utf8_len(s@) > 10),
{
    let mut acc: u64 = 0;
    let mut i: usize = 0;
    assert(s@.subrange(0, 0) =~= Seq::<char>::empty());
    while i < s.len()
        invariant
            i <= s@.len(),
            acc == utf8_len(s@.subrange(0, i as int)),
            acc <= 10,
        decreases s@.len() - i,
    {
        let u = s[i] as u32;
        let w: u64 = if u < 0x80 {
            1
        } else if u < 0x800 {
            2
        } else if u < 0x10000 {
            3
        } else {
            4
        };
        assert(s@.subrange(0, i + 1).drop_last() =~= s@.subrange(0, i as int));
        acc = acc + w;
        i += 1;
        if acc > 10 {
            proof {
                lemma_utf8_len_prefix(s@, i as int);
            }
            return true;
        }
    }
    assert(s@.subrange(0, i as int) =~= s@);
    false
}

/// The trimmed line opens with a comment marker.
pub open spec fn is_comment_start(t: Seq<char>) -> bool {
    starts_with(t, "//"@) || starts_with(t, "#"@) || starts_with(t, "/*"@)
}

/// The text of a comment line without its markers.
pub open spec fn comment_text(t: Seq<char>) -> Seq<char> {
    trim(strip_prefix_all(strip_prefix_all(strip_prefix_all(t, "//"@), "#"@), "/*"@))
}

/// A line that can serve as a summary: a comment of more than ten bytes,
/// cut to its first 100 characters.
pub open spec fn summary_line(l: Seq<char>) -> Option<Seq<char>> {
    let t = trim(l);
    let c = comment_text(t);
    if t.len() > 0 && is_comment_start(t) && utf8_len(c) > 10 {
        Some(
            if c.len() > 100 {
                c.subrange(0, 100)
            } else {
                c
            },
        )
    } else {
        None
    }
}

/// The first summary line among lines `i..end`.
pub open spec fn first_summary(ls: Seq<Seq<char>>, i: int, end: int) -> Option<Seq<char>>
    decreases end - i,
{
    if i >= end || i < 0 || i >= ls.len() {
        None
    } else {
        match summary_line(ls[i]) {
            Some(c) => Some(c),
            None => first_summary(ls, i + 1, end),
        }
    }
}

/// What a file of a language is, where no comment describes it.
pub open spec fn fallback_summary(name: Option<Seq<char>>, line_count: nat) -> Seq<char> {
    if name == Some("rust"@) {
        "Rust source code"@
    } else if name == Some("python"@) {
        "Python script"@
    } else if name == Some("javascript"@) {
        "JavaScript code"@
    } else if name == Some("markdown"@) {
        "Documentation file"@
    } else if name == Some("json"@) {
        "JSON configuration"@
    } else {
        decimal(line_count) + " lines of code"@
    }
}

/// The summary of a file: the first descriptive comment among its first ten
/// lines, else what its language makes it.
pub open spec fn summary_of(name: Option<Seq<char>>, text: Seq<char>) -> Seq<char> {
    let ls = lines(text);
    if ls.len() == 0 {
        "Empty file"@
    } else {
        match first_summary(ls, 0, if ls.len() < 10 {
            ls.len() as int
        } else {
            10
        }) {
            Some(c) => c,
            None => fallback_summary(name, ls.len()),
        }
    }
}

fn summary_line_exec(l: &[char]) -> (r: Option<Vec<char>>)
    ensures
        r matches Some(c) ==> summary_line(l@) == Some(c@),
        r is None ==> summary_line(l@) is None,
{
    let t = trim_chars(l);
    if t.len() == 0 || !(begins(t.as_slice(), "//") || begins(t.as_slice(), "#") || begins(
        t.as_slice(),
        "/*",
    )) {
        return None;
    }
    let a = strip_prefix_all_exec(t.as_slice(), "//");
    let b = strip_prefix_all_exec(a.as_slice(), "#");
    let c0 = strip_prefix_all_exec(b.as_slice(), "/*");
    let c = trim_chars(c0.as_slice());
    if !longer_than_ten_bytes(c.as_slice()) {
        return None;
    }
    if c.len() > 100 {
        Some(slice_copy(c.as_slice(), 0, 100))
    } else {
        Some(c)
    }
}

fn fallback_summary_exec(language: &Option<String>, line_count: usize) -> (r: String)
    ensures
        r@ == fallback_summary(opt_text(language), line_count as nat),
{
    if name_is(language, "rust") {
        owned("Rust source code")
    } else if name_is(language, "python") {
        owned("Python script")
    } else if name_is(language, "javascript") {
        owned("JavaScript code")
    } else if name_is(language, "markdown") {
        owned("Documentation file")
    } else if name_is(language, "json") {
        owned("JSON configuration")
    } else {
        let mut out: Vec<char> = Vec::new();
        push_decimal(&mut out, line_count as u64);
        let tail = chars_of(" lines of code");
        let mut i: usize = 0;
        let ghost head = out@;
        while i < tail.len()
            invariant
                i <= tail@.len(),
                tail@ == " lines of code"@,
                out@ == head + tail@.subrange(0, i as int),
            decreases tail@.len() - i,
        {
            out.push(tail[i]);
            assert(tail@.subrange(0, i + 1) =~= tail@.subrange(0, i as int).push(tail@[i as int]));
            i += 1;
        }
        assert(tail@.subrange(0, i as int) =~= tail@);
        string_of(out.as_slice())
    }
}

/// The names exported by one line.
pub open spec fn line_exports(name: Option<Seq<char>>, l: Seq<char>) -> Seq<Seq<char>> {
    let t = trim(l);
    if name == Some("rust"@) {
        if starts_with(t, "pub fn "@) && words(t).len() > 2 {
            seq![strip_suffix_char(words(t)[2], '(')]
        } else if !starts_with(t, "pub fn "@) && starts_with(t, "pub struct "@) && words(t).len()
            > 2 {
            seq![words(t)[2]]
        } else {
            seq![]
        }
    } else if name == Some("javascript"@) || name == Some("typescript"@) {
        let rest = t.subrange("export "@.len() as int, t.len() as int);
        if starts_with(t, "export "@) && words(rest).len() > 0 {
            seq![words(rest)[0]]
        } else {
            seq![]
        }
    } else {
        seq![]
    }
}

pub open spec fn exports_of(name: Option<Seq<char>>, ls: Seq<Seq<char>>) -> Seq<Seq<char>>
    decreases ls.len(),
{
    if ls.len() == 0 {
        seq![]
    } else {
        exports_of(name, ls.drop_last()) + line_exports(name, ls.last())
    }
}

/// The imports named by one line.
pub open spec fn line_imports(name: Option<Seq<char>>, l: Seq<char>) -> Seq<Seq<char>> {
    let t = trim(l);
    if name == Some("rust"@) && starts_with(t, "use "@) {
        seq![strip_suffix_char(t.subrange("use "@.len() as int, t.len() as int), ';')]
    } else if (name == Some("javascript"@) || name == Some("typescript"@)) && starts_with(
        t,
        "import "@,
    ) {
        seq![t]
    } else {
        seq![]
    }
}

pub open spec fn imports_of(name: Option<Seq<char>>, ls: Seq<Seq<char>>) -> Seq<Seq<char>>
    decreases ls.len(),
{
    if ls.len() == 0 {
        seq![]
    } else {
        imports_of(name, ls.drop_last()) + line_imports(name, ls.last())
    }
}

/// A public API declaration of Rust.
pub open spec fn is_api_line(t: Seq<char>) -> bool {
    starts_with(t, "pub fn "@) || starts_with(t, "pub struct "@) || starts_with(t, "pub enum "@)
        || starts_with(t, "pub trait "@)
}

pub open spec fn line_api(name: Option<Seq<char>>, l: Seq<char>) -> Seq<Seq<char>> {
    if name == Some("rust"@) && is_api_line(trim(l)) {
        seq![trim(l)]
    } else {
        seq![]
    }
}

pub open spec fn api_of(name: Option<Seq<char>>, ls: Seq<Seq<char>>) -> Seq<Seq<char>>
    decreases ls.len(),
{
    if ls.len() == 0 {
        seq![]
    } else {
        api_of(name, ls.drop_last()) + line_api(name, ls.last())
    }
}

/// Which extraction a line goes through.
#[derive(Clone, Copy, PartialEq, Eq, Structural)]
enum Extract {
    Exports,
    Imports,
    Api,
}

spec fn extracted(which: Extract, name: Option<Seq<char>>, l: Seq<char>) -> Seq<Seq<char>> {
    match which {
        Extract::Exports => line_exports(name, l),
        Extract::Imports => line_imports(name, l),
        Extract::Api => line_api(name, l),
    }
}

spec fn extracted_all(which: Extract, name: Option<Seq<char>>, ls: Seq<Seq<char>>) -> Seq<
    Seq<char>,
> {
    match which {
        Extract::Exports => exports_of(name, ls),
        Extract::Imports => imports_of(name, ls),
        Extract::Api => api_of(name, ls),
    }
}

/// Pushes the words item `k` of `ws` if there is one.
fn push_word(out: &mut Vec<String>, ws: &Vec<Vec<char>>, k: usize)
    ensures
        string_views(final(out)@) == string_views(old(out)@) + if k < views(ws@).len() {
            seq![views(ws@)[k as int]]
        } else {
            Seq::<Seq<char>>::empty()
        },
{
    let ghost before = string_views(out@);
    if k < ws.len() {
        out.push(string_of(ws[k].as_slice()));
        assert(string_views(out@) =~= before + seq![views(ws@)[k as int]]);
    } else {
        assert(string_views(out@) =~= before + Seq::<Seq<char>>::empty());
    }
}

fn extract_line(out: &mut Vec<String>, which: Extract, language: &Option<String>, l: &[char])
    ensures
        string_views(final(out)@) == string_views(old(out)@) + extracted(
            which,
            opt_text(language),
            l@,
        ),
{
    let ghost before = string_views(out@);
    let t = trim_chars(l);
    let ts = t.as_slice();
    let rust = name_is(language, "rust");
    let js = name_is(language, "javascript") || name_is(language, "typescript");
    match which {
        Extract::Exports => {
            if rust {
                let fun = begins(ts, "pub fn ");
                if fun || begins(ts, "pub struct ") {
                    let ws = split_words(ts);
                    if ws.len() > 2 {
                        let w = if fun {
                            strip_suffix_char_exec(ws[2].as_slice(), '(')
                        } else {
                            slice_copy(ws[2].as_slice(), 0, ws[2].len())
                        };
                        assert(ws@[2]@.subrange(0, ws@[2]@.len() as int) =~= ws@[2]@);
                        out.push(string_of(w.as_slice()));
                        assert(string_views(out@) =~= before + seq![w@]);
                    } else {
                        assert(string_views(out@) =~= before + Seq::<Seq<char>>::empty());
                    }
                } else {
                    assert(string_views(out@) =~= before + Seq::<Seq<char>>::empty());
                }
            } else if js && begins(ts, "export ") {
                let k = chars_of("export ");
                let rest = slice_copy(ts, k.len(), ts.len());
                let ws = split_words(rest.as_slice());
                push_word(out, &ws, 0);
            } else {
                assert(string_views(out@) =~= before + Seq::<Seq<char>>::empty());
            }
        },
        Extract::Imports => {
            if rust && begins(ts, "use ") {
                let k = chars_of("use ");
                let rest = slice_copy(ts, k.len(), ts.len());
                let w = strip_suffix_char_exec(rest.as_slice(), ';');
                out.push(string_of(w.as_slice()));
                assert(string_views(out@) =~= before + seq![w@]);
            } else if js && begins(ts, "import ") {
                out.push(string_of(ts));
                assert(string_views(out@) =~= before + seq![t@]);
            } else {
                assert(string_views(out@) =~= before + Seq::<Seq<char>>::empty());
            }
        },
        Extract::Api => {
            if rust && (begins(ts, "pub fn ") || begins(ts, "pub struct ") || begins(
                ts,
                "pub enum ",
            ) || begins(ts, "pub trait ")) {
                out.push(string_of(ts));
                assert(string_views(out@) =~= before + seq![t@]);
            } else {
                assert(string_views(out@) =~= before + Seq::<Seq<char>>::empty());
            }
        },
    }
}

fn extract_all(which: Extract, content: &str, language: &Option<String>) -> (r: Vec<String>)
    ensures
        string_views(r@) == extracted_all(which, opt_text(language), lines(content@)),
{
    let text = chars_of(content);
    let ls = split_lines(text.as_slice());
    let ghost lsv = views(ls@);
    let mut out: Vec<String> = Vec::new();
    let mut k: usize = 0;
    assert(lsv.subrange(0, 0) =~= Seq::<Seq<char>>::empty());
    assert(string_views(out@) =~= Seq::<Seq<char>>::empty());
    while k < ls.len()
        invariant
            lsv == views(ls@),
            lsv == lines(content@),
            k <= ls@.len(),
            string_views(out@) == extracted_all(which, opt_text(language), lsv.subrange(0, k as int)),
        decreases ls@.len() - k,
    {
        assert(lsv.subrange(0, k + 1).drop_last() =~= lsv.subrange(0, k as int));
        assert(lsv.subrange(0, k + 1).last() == ls@[k as int]@);
        extract_line(&mut out, which, language, ls[k].as_slice());
        k += 1;
    }
    assert(lsv.subrange(0, k as int) =~= lsv);
    out
}

impl ContentAnalyzer {
    /// The language named by a file's extension, if it is a known one.
    pub fn detect_language(&self, filename: &str) -> (r: Option<String>)
        ensures
            opt_text(&r) == language_of_file(filename@),
    {
        let full = chars_of(filename);
        let v = strip_suffix_char_exec(full.as_slice(), '/');
        let n = v.len();
        let mut i: usize = n;
        while i > 0 && v[i - 1] != '.' && v[i - 1] != '/'
            invariant
                i <= n == v@.len(),
                last_dot_before(v@, n as int) == last_dot_before(v@, i as int),
            decreases i,
        {
            i -= 1;
        }
        if i <= 1 || v[i - 1] == '/' || v[i - 2] == '/' {
            return None;
        }
        let e = slice_copy(v.as_slice(), i, n);
        language_for_extension_exec(&e)
    }

    /// A one-line summary of a file (see `summary_of`).
    pub fn generate_summary(&self, content: &str, language: &Option<String>) -> (r: String)
        ensures
            r@ == summary_of(opt_text(language), content@),
    {
        let text = chars_of(content);
        let ls = split_lines(text.as_slice());
        let ghost lsv = views(ls@);
        assert(lsv.len() == ls@.len());
        if ls.len() == 0 {
            return owned("Empty file");
        }
        let end: usize = if ls.len() < 10 {
            ls.len()
        } else {
            10
        };
        let mut k: usize = 0;
        while k < end
            invariant
                lsv == views(ls@),
                lsv == lines(content@),
                end <= ls@.len(),
                lsv.len() == ls@.len(),
                end == (if ls@.len() < 10 {
                    ls@.len()
                } else {
                    10
                }),
                k <= end,
                first_summary(lsv, 0, end as int) == first_summary(lsv, k as int, end as int),
            decreases end - k,
        {
            assert(lsv[k as int] == ls@[k as int]@);
            match summary_line_exec(ls[k].as_slice()) {
                Some(c) => {
                    assert(first_summary(lsv, k as int, end as int) == Some(c@));
                    assert(end as int == (if lsv.len() < 10 {
                        lsv.len() as int
                    } else {
                        10
                    }));
                    assert(summary_of(opt_text(language), content@) == c@);
                    return string_of(c.as_slice());
                },
                None => {},
            }
            k += 1;
        }
        fallback_summary_exec(language, ls.len())
    }

    /// The exported names: for Rust, the name of each `pub fn` (without a
    /// trailing `(`) and `pub struct`; for JavaScript and TypeScript, the word
    /// after each `export `.
    pub fn extract_exports(&self, content: &str, language: &Option<String>) -> (r: Vec<String>)
        ensures
            string_views(r@) == exports_of(opt_text(language), lines(content@)),
    {
        extract_all(Extract::Exports, content, language)
    }

    /// The imports: for Rust, each `use` path without its `;`; for JavaScript
    /// and TypeScript, each `import` line.
    pub fn extract_imports(&self, content: &str, language: &Option<String>) -> (r: Vec<String>)
        ensures
            string_views(r@) == imports_of(opt_text(language), lines(content@)),
    {
        extract_all(Extract::Imports, content, language)
    }

    /// The public API declarations of Rust, one trimmed line each.
    pub fn extract_api_surface(&self, content: &str, language: &Option<String>) -> (r: Vec<
        String,
    >)
        ensures
            string_views(r@) == api_of(opt_text(language), lines(content@)),
    {
        extract_all(Extract::Api, content, language)
    }
}

} // verus!

verus! {

/// What a file is for, from its lower-cased path, its content and its
/// language: path words first (test, example or demo, lib or core, cli or
/// bin, config), then an entry point in the content, then the language.
pub open spec fn purpose_of(lower_path: Seq<char>, text: Seq<char>, name: Option<Seq<char>>) -> Seq<
    char,
> {
    if contains(lower_path, "test"@) {
        "Test code"@
    } else if contains(lower_path, "example"@) || contains(lower_path, "demo"@) {
        "Example/demo code"@
    } else if contains(lower_path, "lib"@) || contains(lower_path, "core"@) {
        "Core library functionality"@
    } else if contains(lower_path, "cli"@) || contains(lower_path, "bin"@) {
        "Command-line interface"@
    } else if contains(lower_path, "config"@) {
        "Configuration"@
    } else if contains(text, "main("@) || contains(text, "fn main"@) {
        "Application entry point"@
    } else if name == Some("markdown"@) {
        "Documentation"@
    } else if name == Some("json"@) || name == Some("yaml"@) || name == Some("toml"@) {
        "Configuration file"@
    } else if name == Some("shell"@) {
        "Shell script"@
    } else {
        "Source code"@
    }
}

impl ContentAnalyzer {
    /// The purpose of a file whose path is given already lower-cased.
    pub fn purpose_from_lowered_path(
        &self,
        lower_path: &str,
        content: &str,
        language: &Option<String>,
    ) -> (r: String)
        ensures
            r@ == purpose_of(lower_path@, content@, opt_text(language)),
    {
        let p = chars_of(lower_path);
        let ps = p.as_slice();
        let c = chars_of(content);
        if has_text(ps, "test") {
            owned("Test code")
        } else if has_text(ps, "example") || has_text(ps, "demo") {
            owned("Example/demo code")
        } else if has_text(ps, "lib") || has_text(ps, "core") {
            owned("Core library functionality")
        } else if has_text(ps, "cli") || has_text(ps, "bin") {
            owned("Command-line interface")
        } else if has_text(ps, "config") {
            owned("Configuration")
        } else if has_text(c.as_slice(), "main(") || has_text(c.as_slice(), "fn main") {
            owned("Application entry point")
        } else if name_is(language, "markdown") {
            owned("Documentation")
        } else if name_is(language, "json") || name_is(language, "yaml") || name_is(
            language,
            "toml",
        ) {
            owned("Configuration file")
        } else if name_is(language, "shell") {
            owned("Shell script")
        } else {
            owned("Source code")
        }
    }

    /// The purpose of a file (see `purpose_of`); the path is lower-cased first.
    pub fn infer_purpose(&self, path: &str, content: &str, language: &Option<String>) -> (r: String)
        ensures
            r@ == purpose_of(crate::text::lowercase_of(path@), content@, opt_text(language)),
    {
        let lower = crate::text::lowercase(path);
        self.purpose_from_lowered_path(lower.as_str(), content, language)
    }
}

} // verus!
