//! Files as the scan sees them, what the analysis adds to them, the tags that
//! classify them, and the scan's options and errors.

use vstd::prelude::*;
use crate::analyzer::ContentAnalyzer;
use crate::describe::{api_of, exports_of, imports_of, language_of_file, purpose_of, summary_of};
use crate::language::opt_text;
use crate::scoring::{complexity_units, importance_units};
use crate::text::{
    begins, chars_of, contains, ends_with, finishes, has_text, lines, lowercase, lowercase_of,
    owned, push_decimal, push_text, split_lines, starts_with, string_of, string_views, views,
};

verus! {

/// A file or directory found by the scan. Paths are held as text.
#[derive(Debug, Clone)]
pub struct FileEntry {
    pub path: String,
    pub name: String,
    pub size: u64,
    /// Modification time in seconds since the Unix epoch, where known.
    pub modified: Option<u64>,
    pub is_dir: bool,
    pub tags: Vec<String>,
    pub enhanced_info: Option<EnhancedFileInfo>,
}

/// What content analysis adds to a file. Scores are in ten-thousandths
/// (see `crate::scoring`).
#[derive(Debug, Clone)]
pub struct EnhancedFileInfo {
    pub language: Option<String>,
    pub framework: Option<String>,
    pub line_count: Option<usize>,
    pub complexity_score: Option<u64>,
    pub importance_score: Option<u64>,
    pub content_summary: Option<String>,
    pub exports: Vec<String>,
    pub imports: Vec<String>,
    pub dependencies: Vec<String>,
    pub related_files: Vec<String>,
    pub purpose: Option<String>,
    pub last_author: Option<String>,
    pub change_frequency: Option<String>,
    pub api_surface: Vec<String>,
}

impl EnhancedFileInfo {
    /// Nothing is known: every option empty, every list empty.
    pub open spec fn is_blank(&self) -> bool {
        &&& self.language is None
        &&& self.framework is None
        &&& self.line_count is None
        &&& self.complexity_score is None
        &&& self.importance_score is None
        &&& self.content_summary is None
        &&& self.exports@.len() == 0
        &&& self.imports@.len() == 0
        &&& self.dependencies@.len() == 0
        &&& self.related_files@.len() == 0
        &&& self.purpose is None
        &&& self.last_author is None
        &&& self.change_frequency is None
        &&& self.api_surface@.len() == 0
    }
}

impl Default for EnhancedFileInfo {
    fn default() -> (r: EnhancedFileInfo)
        ensures
            r.is_blank(),
    {
        EnhancedFileInfo {
            language: None,
            framework: None,
            line_count: None,
            complexity_score: None,
            importance_score: None,
            content_summary: None,
            exports: Vec::new(),
            imports: Vec::new(),
            dependencies: Vec::new(),
            related_files: Vec::new(),
            purpose: None,
            last_author: None,
            change_frequency: None,
            api_surface: Vec::new(),
        }
    }
}

/// How results are laid out.
#[derive(Clone, Copy, Debug, PartialEq, Eq, Structural)]
pub enum OutputFormat {
    Basic,
    Compact,
    Detailed,
    Hierarchical,
}

/// What the scan visits and how it reports.
#[derive(Debug, Clone)]
pub struct ScanOptions {
    pub max_depth: Option<usize>,
    /// A path that contains any of these is skipped.
    pub ignore_patterns: Vec<String>,
    pub follow_symlinks: bool,
    pub include_hidden: bool,
    pub mapper_profile: String,
    pub collect_metadata: bool,
    pub enhanced_analysis: bool,
    pub output_format: OutputFormat,
}

impl Default for ScanOptions {
    fn default() -> (r: ScanOptions)
        ensures
            r.max_depth is None,
            string_views(r.ignore_patterns@) == seq![".git"@, "node_modules"@, "target"@, ".DS_Store"@],
            !r.follow_symlinks,
            !r.include_hidden,
            r.mapper_profile@ == "generic"@,
            !r.collect_metadata,
            !r.enhanced_analysis,
            r.output_format == OutputFormat::Basic,
    {
        let mut ignore: Vec<String> = Vec::new();
        ignore.push(owned(".git"));
        ignore.push(owned("node_modules"));
        ignore.push(owned("target"));
        ignore.push(owned(".DS_Store"));
        assert(string_views(ignore@) =~= seq![".git"@, "node_modules"@, "target"@, ".DS_Store"@]);
        ScanOptions {
            max_depth: None,
            ignore_patterns: ignore,
            follow_symlinks: false,
            include_hidden: false,
            mapper_profile: owned("generic"),
            collect_metadata: false,
            enhanced_analysis: false,
            output_format: OutputFormat::Basic,
        }
    }
}

/// A hidden name: it starts with `.` and is neither `.` nor `..`.
pub open spec fn is_hidden_name(name: Seq<char>) -> bool {
    starts_with(name, "."@) && name != "."@ && name != ".."@
}

/// The path holds one of the patterns.
pub open spec fn matches_some_pattern(path: Seq<char>, patterns: Seq<Seq<char>>) -> bool {
    exists|i: int| 0 <= i < patterns.len() && contains(path, #[trigger] patterns[i])
}

impl ScanOptions {
    /// Whether the scan skips an entry with this file name and path: a hidden
    /// name unless hidden entries are included, or a path that holds an
    /// ignore pattern.
    pub fn should_ignore(&self, name: &str, path: &str) -> (r: bool)
        ensures
            r == ((!self.include_hidden && is_hidden_name(name@)) || matches_some_pattern(
                path@,
                string_views(self.ignore_patterns@),
            )),
    {
        let n = chars_of(name);
        if !self.include_hidden && begins(n.as_slice(), ".") && !crate::text::same_text(&n, ".")
            && !crate::text::same_text(&n, "..") {
            return true;
        }
        let p = chars_of(path);
        let ghost pats = string_views(self.ignore_patterns@);
        let mut i: usize = 0;
        while i < self.ignore_patterns.len()
            invariant
                i <= self.ignore_patterns@.len(),
                pats == string_views(self.ignore_patterns@),
                p@ == path@,
                forall|j: int| 0 <= j < i ==> !contains(path@, #[trigger] pats[j]),
            decreases self.ignore_patterns@.len() - i,
        {
            let q = chars_of(self.ignore_patterns[i].as_str());
            if crate::text::contains_chars(p.as_slice(), q.as_slice()) {
                assert(pats[i as int] == q@);
                return true;
            }
            assert(pats[i as int] == q@);
            i += 1;
        }
        false
    }
}

/// Why a scan or an analysis failed.
#[derive(Debug, Clone)]
pub enum ScanError {
    Io { message: String },
    PermissionDenied { path: String },
    PathNotFound { path: String },
    LimitExceeded { limit: usize },
    InvalidConfig { message: String },
}

impl ScanError {
    /// The text that describes the error.
    pub open spec fn text(&self) -> Seq<char> {
        match self {
            ScanError::Io { message } => "IO error: "@ + message@,
            ScanError::PermissionDenied { path } => "Permission denied: "@ + path@,
            ScanError::PathNotFound { path } => "Path not found: "@ + path@,
            ScanError::LimitExceeded { limit } => "Scan limit exceeded: "@ + crate::text::decimal(
                *limit as nat,
            ),
            ScanError::InvalidConfig { message } => "Invalid configuration: "@ + message@,
        }
    }

    pub fn message(&self) -> (r: String)
        ensures
            r@ == self.text(),
    {
        let mut out: Vec<char> = Vec::new();
        match self {
            ScanError::Io { message } => {
                push_text(&mut out, "IO error: ");
                push_text(&mut out, message.as_str());
            },
            ScanError::PermissionDenied { path } => {
                push_text(&mut out, "Permission denied: ");
                push_text(&mut out, path.as_str());
            },
            ScanError::PathNotFound { path } => {
                push_text(&mut out, "Path not found: ");
                push_text(&mut out, path.as_str());
            },
            ScanError::LimitExceeded { limit } => {
                push_text(&mut out, "Scan limit exceeded: ");
                push_decimal(&mut out, *limit as u64);
            },
            ScanError::InvalidConfig { message } => {
                push_text(&mut out, "Invalid configuration: ");
                push_text(&mut out, message.as_str());
            },
        }
        string_of(out.as_slice())
    }
}

/// A tag where the condition holds.
pub open spec fn opt_tag(b: bool, t: Seq<char>) -> Seq<Seq<char>> {
    if b {
        seq![t]
    } else {
        seq![]
    }
}

pub open spec fn is_documentation(n: Seq<char>) -> bool {
    starts_with(n, "readme"@) || ends_with(n, ".md"@) || ends_with(n, ".txt"@) || ends_with(
        n,
        ".rst"@,
    )
}

pub open spec fn is_configuration(n: Seq<char>) -> bool {
    ends_with(n, ".json"@) || ends_with(n, ".yaml"@) || ends_with(n, ".yml"@) || ends_with(
        n,
        ".toml"@,
    ) || ends_with(n, ".ini"@) || ends_with(n, ".cfg"@)
}

pub open spec fn is_script(n: Seq<char>) -> bool {
    ends_with(n, ".sh"@) || ends_with(n, ".bash"@) || ends_with(n, ".zsh"@) || ends_with(
        n,
        ".fish"@,
    ) || ends_with(n, ".ps1"@) || ends_with(n, ".bat"@) || ends_with(n, ".cmd"@)
}

pub open spec fn is_source(n: Seq<char>) -> bool {
    ends_with(n, ".rs"@) || ends_with(n, ".py"@) || ends_with(n, ".js"@) || ends_with(n, ".ts"@)
        || ends_with(n, ".jsx"@) || ends_with(n, ".tsx"@) || ends_with(n, ".go"@) || ends_with(
        n,
        ".java"@,
    ) || ends_with(n, ".c"@) || ends_with(n, ".cpp"@) || ends_with(n, ".h"@) || ends_with(
        n,
        ".hpp"@,
    )
}

pub open spec fn mentions_either(p: Seq<char>, n: Seq<char>, a: Seq<char>, b: Seq<char>) -> bool {
    contains(p, a) || contains(p, b) || contains(n, a) || contains(n, b)
}

/// The tags of an entry from its lower-cased path and name: `directory`, or
/// each of documentation, configuration, script, source, test and example
/// that applies, or `unclassified`.
pub open spec fn generic_tags(is_dir: bool, p: Seq<char>, n: Seq<char>) -> Seq<Seq<char>> {
    if is_dir {
        seq!["directory"@]
    } else {
        let tags = opt_tag(is_documentation(n), "documentation"@) + opt_tag(
            is_configuration(n),
            "configuration"@,
        ) + opt_tag(is_script(n), "script"@) + opt_tag(is_source(n), "source"@) + opt_tag(
            mentions_either(p, n, "test"@, "spec"@),
            "test"@,
        ) + opt_tag(mentions_either(p, n, "example"@, "demo"@), "example"@);
        if tags.len() == 0 {
            seq!["unclassified"@]
        } else {
            tags
        }
    }
}

fn push_tag(out: &mut Vec<String>, b: bool, t: &str)
    ensures
        string_views(final(out)@) == string_views(old(out)@) + opt_tag(b, t@),
{
    let ghost before = string_views(out@);
    if b {
        out.push(owned(t));
        assert(string_views(out@) =~= before + seq![t@]);
    } else {
        assert(string_views(out@) =~= before + Seq::<Seq<char>>::empty());
    }
}

/// Classifies entries by name and path alone.
pub struct GenericMapper;

impl GenericMapper {
    /// The tags of an entry whose path and name are given lower-cased.
    pub fn tags_for(is_dir: bool, lower_path: &str, lower_name: &str) -> (r: Vec<String>)
        ensures
            string_views(r@) == generic_tags(is_dir, lower_path@, lower_name@),
    {
        let mut tags: Vec<String> = Vec::new();
        if is_dir {
            push_tag(&mut tags, true, "directory");
            assert(string_views(tags@) =~= seq!["directory"@]);
            return tags;
        }
        let pv = chars_of(lower_path);
        let nv = chars_of(lower_name);
        let p = pv.as_slice();
        let n = nv.as_slice();
        assert(string_views(tags@) =~= Seq::<Seq<char>>::empty());
        let doc = begins(n, "readme") || finishes(n, ".md") || finishes(n, ".txt") || finishes(
            n,
            ".rst",
        );
        push_tag(&mut tags, doc, "documentation");
        let config = finishes(n, ".json") || finishes(n, ".yaml") || finishes(n, ".yml")
            || finishes(n, ".toml") || finishes(n, ".ini") || finishes(n, ".cfg");
        push_tag(&mut tags, config, "configuration");
        let script = finishes(n, ".sh") || finishes(n, ".bash") || finishes(n, ".zsh") || finishes(
            n,
            ".fish",
        ) || finishes(n, ".ps1") || finishes(n, ".bat") || finishes(n, ".cmd");
        push_tag(&mut tags, script, "script");
        let source = finishes(n, ".rs") || finishes(n, ".py") || finishes(n, ".js") || finishes(
            n,
            ".ts",
        ) || finishes(n, ".jsx") || finishes(n, ".tsx") || finishes(n, ".go") || finishes(
            n,
            ".java",
        ) || finishes(n, ".c") || finishes(n, ".cpp") || finishes(n, ".h") || finishes(n, ".hpp");
        push_tag(&mut tags, source, "source");
        let test = has_text(p, "test") || has_text(p, "spec") || has_text(n, "test") || has_text(
            n,
            "spec",
        );
        push_tag(&mut tags, test, "test");
        let example = has_text(p, "example") || has_text(p, "demo") || has_text(n, "example")
            || has_text(n, "demo");
        push_tag(&mut tags, example, "example");
        if tags.len() == 0 {
            push_tag(&mut tags, true, "unclassified");
            assert(string_views(tags@) =~= seq!["unclassified"@]);
        }
        tags
    }

    /// The tags of an entry; its path and name are lower-cased first.
    pub fn classify(&self, entry: &FileEntry) -> (r: Vec<String>)
        ensures
            string_views(r@) == generic_tags(
                entry.is_dir,
                lowercase_of(entry.path@),
                lowercase_of(entry.name@),
            ),
    {
        if entry.is_dir {
            return GenericMapper::tags_for(true, "", "");
        }
        let p = lowercase(entry.path.as_str());
        let n = lowercase(entry.name.as_str());
        GenericMapper::tags_for(false, p.as_str(), n.as_str())
    }

    pub fn name(&self) -> (r: &'static str)
        ensures
            r@ == "generic"@,
    {
        "generic"
    }
}

/// The language's tag.
pub open spec fn language_tags(info: &EnhancedFileInfo) -> Seq<Seq<char>> {
    match info.language {
        Some(l) => seq![l@],
        None => seq![],
    }
}

/// The purpose's kind: entry point, core library, command line.
pub open spec fn purpose_tags(info: &EnhancedFileInfo) -> Seq<Seq<char>> {
    match info.purpose {
        Some(p) => opt_tag(contains(p@, "entry point"@), "entrypoint"@) + opt_tag(
            contains(p@, "Core library"@),
            "core-api"@,
        ) + opt_tag(contains(p@, "Command-line"@), "cli"@),
        None => seq![],
    }
}

/// The importance band: above 5.0 high, above 2.0 moderate.
pub open spec fn importance_tags(info: &EnhancedFileInfo) -> Seq<Seq<char>> {
    match info.importance_score {
        Some(i) => if i > 50000 {
            seq!["high-importance"@]
        } else {
            opt_tag(i > 20000, "moderate-importance"@)
        },
        None => seq![],
    }
}

/// High complexity: above 5.0.
pub open spec fn complexity_tags(info: &EnhancedFileInfo) -> Seq<Seq<char>> {
    match info.complexity_score {
        Some(c) => opt_tag(c > 50000, "high-complexity"@),
        None => seq![],
    }
}

/// Tags that content analysis adds, in this order: language, purpose,
/// importance, complexity.
pub open spec fn enhanced_tags(info: &EnhancedFileInfo) -> Seq<Seq<char>> {
    language_tags(info) + purpose_tags(info) + importance_tags(info) + complexity_tags(info)
}

fn push_language_tags(tags: &mut Vec<String>, info: &EnhancedFileInfo)
    ensures
        string_views(final(tags)@) == string_views(old(tags)@) + language_tags(info),
{
    let ghost before = string_views(tags@);
    match &info.language {
        Some(l) => {
            tags.push(owned(l.as_str()));
            assert(string_views(tags@) =~= before + seq![l@]);
        },
        None => {
            assert(string_views(tags@) =~= before + Seq::<Seq<char>>::empty());
        },
    }
}

fn push_purpose_tags(tags: &mut Vec<String>, info: &EnhancedFileInfo)
    ensures
        string_views(final(tags)@) == string_views(old(tags)@) + purpose_tags(info),
{
    let ghost before = string_views(tags@);
    match &info.purpose {
        Some(p) => {
            let pv = chars_of(p.as_str());
            push_tag(tags, has_text(pv.as_slice(), "entry point"), "entrypoint");
            push_tag(tags, has_text(pv.as_slice(), "Core library"), "core-api");
            push_tag(tags, has_text(pv.as_slice(), "Command-line"), "cli");
            assert(string_views(tags@) =~= before + purpose_tags(info));
        },
        None => {
            assert(string_views(tags@) =~= before + Seq::<Seq<char>>::empty());
        },
    }
}

fn push_score_tags(tags: &mut Vec<String>, info: &EnhancedFileInfo)
    ensures
        string_views(final(tags)@) == string_views(old(tags)@) + importance_tags(info)
            + complexity_tags(info),
{
    let ghost before = string_views(tags@);
    match info.importance_score {
        Some(i) => {
            if i > 50000 {
                push_tag(tags, true, "high-importance");
            } else {
                push_tag(tags, i > 20000, "moderate-importance");
            }
        },
        None => {
            assert(string_views(tags@) =~= before + Seq::<Seq<char>>::empty());
        },
    }
    let ghost mid = string_views(tags@);
    match info.complexity_score {
        Some(c) => {
            push_tag(tags, c > 50000, "high-complexity");
        },
        None => {
            assert(string_views(tags@) =~= mid + Seq::<Seq<char>>::empty());
        },
    }
    assert(string_views(tags@) =~= before + importance_tags(info) + complexity_tags(info));
}

/// Classifies entries by name and path, and by what analysis found in them.
pub struct EnhancedGenericMapper {
    analyzer: ContentAnalyzer,
    basic_mapper: GenericMapper,
}

impl EnhancedGenericMapper {
    pub fn new() -> EnhancedGenericMapper {
        EnhancedGenericMapper { analyzer: ContentAnalyzer, basic_mapper: GenericMapper }
    }

    /// The generic tags, then those of the entry's analysis, if any.
    pub fn classify(&self, entry: &FileEntry) -> (r: Vec<String>)
        ensures
            string_views(r@) == generic_tags(
                entry.is_dir,
                lowercase_of(entry.path@),
                lowercase_of(entry.name@),
            ) + match entry.enhanced_info {
                Some(info) => enhanced_tags(&info),
                None => Seq::<Seq<char>>::empty(),
            },
    {
        let mut tags = self.basic_mapper.classify(entry);
        let ghost base = string_views(tags@);
        match &entry.enhanced_info {
            Some(info) => {
                push_language_tags(&mut tags, info);
                push_purpose_tags(&mut tags, info);
                push_score_tags(&mut tags, info);
                assert(string_views(tags@) =~= base + enhanced_tags(info));
            },
            None => {
                assert(string_views(tags@) =~= base + Seq::<Seq<char>>::empty());
            },
        }
        tags
    }

    pub fn name(&self) -> (r: &'static str)
        ensures
            r@ == "enhanced-generic"@,
    {
        "enhanced-generic"
    }
}

} // verus!

verus! {

/// What analysis finds in a file's content, given its language.
pub open spec fn content_findings(
    info: &EnhancedFileInfo,
    path: Seq<char>,
    content: &str,
    lang: Option<Seq<char>>,
) -> bool {
    &&& info.line_count == Some(lines(content@).len() as usize)
    &&& info.complexity_score == Some(complexity_units(lang, content@, content.len() as nat) as u64)
    &&& opt_text(&info.content_summary) == Some(summary_of(lang, content@))
    &&& string_views(info.exports@) == exports_of(lang, lines(content@))
    &&& string_views(info.imports@) == imports_of(lang, lines(content@))
    &&& string_views(info.api_surface@) == api_of(lang, lines(content@))
    &&& opt_text(&info.purpose) == Some(purpose_of(lowercase_of(path), content@, lang))
}

/// The analysis of a file: a directory gets a blank record; a file gets its
/// language, what its content shows where the content could be read, and an
/// importance score.
pub open spec fn analysis_of(entry: &FileEntry, content: Option<&str>, info: &EnhancedFileInfo) -> bool {
    if entry.is_dir {
        info.is_blank()
    } else {
        let lang = opt_text(&info.language);
        &&& lang == language_of_file(entry.name@)
        &&& info.framework is None
        &&& info.dependencies@.len() == 0
        &&& info.related_files@.len() == 0
        &&& info.last_author is None
        &&& info.change_frequency is None
        &&& match content {
            Some(c) => content_findings(info, entry.path@, c, lang),
            None => {
                &&& info.line_count is None
                &&& info.complexity_score is None
                &&& info.content_summary is None
                &&& info.exports@.len() == 0
                &&& info.imports@.len() == 0
                &&& info.api_surface@.len() == 0
                &&& info.purpose is None
            },
        }
        &&& info.importance_score == Some(
            importance_units(
                entry.size as nat,
                info.complexity_score,
                info.api_surface@.len(),
                entry.path@,
            ) as u64,
        )
    }
}

impl ContentAnalyzer {
    fn fill_from_content(&self, info: &mut EnhancedFileInfo, path: &str, content: &str)
        ensures
            content_findings(final(info), path@, content, opt_text(&old(info).language)),
            final(info).language == old(info).language,
            final(info).framework == old(info).framework,
            final(info).dependencies == old(info).dependencies,
            final(info).related_files == old(info).related_files,
            final(info).last_author == old(info).last_author,
            final(info).change_frequency == old(info).change_frequency,
    {
        let text = chars_of(content);
        let ls = split_lines(text.as_slice());
        assert(views(ls@).len() == ls@.len());
        info.line_count = Some(ls.len());
        info.complexity_score = Some(self.calculate_complexity(content, &info.language));
        info.content_summary = Some(self.generate_summary(content, &info.language));
        info.exports = self.extract_exports(content, &info.language);
        info.imports = self.extract_imports(content, &info.language);
        info.api_surface = self.extract_api_surface(content, &info.language);
        info.purpose = Some(self.infer_purpose(path, content, &info.language));
    }

    /// Analyzes one entry whose content, where it could be read, is given.
    /// It never fails: an unreadable file only lacks what its content shows.
    pub fn analyze_file(&self, entry: &FileEntry, content: Option<&str>) -> (r: Result<
        EnhancedFileInfo,
        ScanError,
    >)
        ensures
            match r {
                Ok(info) => analysis_of(entry, content, &info),
                Err(_) => false,
            },
    {
        let mut info = EnhancedFileInfo::default();
        if entry.is_dir {
            return Ok(info);
        }
        info.language = self.detect_language(entry.name.as_str());
        match content {
            Some(c) => {
                self.fill_from_content(&mut info, entry.path.as_str(), c);
            },
            None => {},
        }
        info.importance_score = Some(self.calculate_importance(entry, &info));
        Ok(info)
    }
}

} // verus!
