use projscan::analyzer::ContentAnalyzer;
use projscan::files::{
    EnhancedFileInfo, EnhancedGenericMapper, FileEntry, GenericMapper, OutputFormat, ScanError,
    ScanOptions,
};
use projscan::format::OutputFormatter;
use projscan::language::Language;
use projscan::profile::BranchingDetails;

fn rust() -> Option<String> {
    Some("rust".to_string())
}

fn entry(path: &str, name: &str, is_dir: bool) -> FileEntry {
    FileEntry {
        path: path.to_string(),
        name: name.to_string(),
        size: 0,
        modified: None,
        is_dir,
        tags: Vec::new(),
        enhanced_info: None,
    }
}

#[test]
fn string_literal_keywords_do_not_count() {
    let content = "let msg = \"if you see this, ignore the if keyword\";\nif x { y(); }\n";
    let d = ContentAnalyzer::new().analyze_branching_details(content, &rust());
    assert_eq!(d.conditional_count, 1);
    assert_eq!(d.total_branches, 1);
}

#[test]
fn comment_keywords_do_not_count() {
    let content = "let a = 1; // if b { c(); } while d\nlet e = 2; /* for f in g */\n";
    for lang in ["rust", "javascript", "python", "go"] {
        let d = ContentAnalyzer::new().analyze_branching_details(content, &Some(lang.to_string()));
        assert_eq!(d.conditional_count, 0);
        assert_eq!(d.loop_count, 0);
        assert_eq!(d.total_branches, 0);
    }
}

#[test]
fn ten_nested_ifs_fill_each_depth_once() {
    let mut content = String::new();
    for _ in 0..10 {
        content.push_str("if c {\n");
    }
    for _ in 0..10 {
        content.push_str("}\n");
    }
    let d = ContentAnalyzer::new().analyze_branching_details(&content, &rust());
    for depth in 1..=10usize {
        assert_eq!(d.nesting_distribution.get(&depth), Some(&1));
    }
    assert_eq!(d.nesting_distribution.len(), 10);
    assert_eq!(d.max_nesting, 10);
}

#[test]
fn magic_number_and_power_of_two() {
    let a = ContentAnalyzer::new();
    let d = a.analyze_branching_details("if count > 42 { return; }", &rust());
    assert_eq!(d.hardcoded_values_count, 1);
    let d = a.analyze_branching_details("if count == 1024 { optimize(); }", &rust());
    assert_eq!(d.hardcoded_values_count, 0);
}

#[test]
fn file_read_is_not_pure_and_length_check_is() {
    let a = ContentAnalyzer::new();
    let d = a.analyze_branching_details("if fs::read_to_string(\"x\").is_ok() { load(); }", &rust());
    assert_eq!(d.non_pure_branches, 1);
    assert_eq!(d.pure_branches, 0);
    let d = a.analyze_branching_details("if items.len() > 0 { process(); }", &rust());
    assert_eq!(d.pure_branches, 1);
    assert_eq!(d.non_pure_branches, 0);
}

#[test]
fn release_date_is_future_logic_and_a_date() {
    let d = ContentAnalyzer::new()
        .analyze_branching_details("if release_date > \"2025-06-01\" { enable(); }", &rust());
    assert_eq!(d.future_logic_count, 1);
    assert!(d.hardcoded_dates_count >= 1);
}

const SAMPLES: [&str; 6] = [
    "",
    "if a { b(); }\nfor x in y {\n if fs::read(p) { q(); }\n}\n",
    "match v {\n  A => { if w { z(); } },\n  _ => {},\n}\n",
    "if (a && b) { c(); } else if (d || e) { f(); }\nwhile (g) { h(); }\nswitch (k) {\ncase 1: m(); break;\n}\n",
    "if a and b:\n    for x in y:\n        pass\nexcept ValueError:\n",
    "}}}}\n{{{{\nif x {\n",
];

#[test]
fn purity_tallies_add_up_to_branches() {
    for lang in ["rust", "javascript", "python", "java", "go", "cpp", "markdown"] {
        for content in SAMPLES {
            let d = ContentAnalyzer::new().analyze_branching_details(content, &Some(lang.to_string()));
            assert_eq!(d.pure_branches + d.non_pure_branches, d.total_branches);
        }
    }
}

#[test]
fn histogram_sums_to_conditionals_when_each_opens_one_scope() {
    let content = "if a {\n  if b {\n  }\n}\nif c {\n}\nfor x in y {\n  if d {\n  }\n}\n";
    let d = ContentAnalyzer::new().analyze_branching_details(content, &rust());
    let sum: usize = d.nesting_distribution.values().sum();
    assert_eq!(d.conditional_count, 4);
    assert_eq!(sum, d.conditional_count);
    assert_eq!(d.nesting_distribution.get(&1), Some(&2));
    assert_eq!(d.nesting_distribution.get(&2), Some(&2));
}

#[test]
fn histogram_differs_from_count_when_a_line_holds_two_ifs() {
    let d = ContentAnalyzer::new().analyze_branching_details("if a { if b { c(); } }", &rust());
    let sum: usize = d.nesting_distribution.values().sum();
    assert_eq!(d.conditional_count, 2);
    assert_eq!(sum, 1);
}

#[test]
fn empty_content_gives_an_empty_profile() {
    for lang in [None, rust(), Some("python".to_string()), Some("javascript".to_string())] {
        let d = ContentAnalyzer::new().analyze_branching_details("", &lang);
        assert_eq!(d.conditional_count, 0);
        assert_eq!(d.loop_count, 0);
        assert_eq!(d.switch_count, 0);
        assert_eq!(d.logical_operators, 0);
        assert_eq!(d.total_branches, 0);
        assert_eq!(d.max_nesting, 0);
        assert_eq!(d.cognitive_quarters, 0);
        assert_eq!(d.cyclomatic_complexity, 1);
        assert!(d.nesting_distribution.is_empty());
    }
}

#[test]
fn scores_stay_within_ten() {
    let a = ContentAnalyzer::new();
    let mut big = String::new();
    for i in 0..3000 {
        big.push_str(&format!("impl T{} {{ if a {{ while b {{ c(); }} }} }}\n", i));
    }
    let c = a.calculate_complexity(&big, &rust());
    assert_eq!(c, 100000);
    let mut e = entry("core/main.rs", "main.rs", false);
    e.size = u64::MAX;
    let mut info = EnhancedFileInfo::default();
    info.complexity_score = Some(c);
    info.api_surface = vec!["pub fn f()".to_string(); 1000];
    assert_eq!(a.calculate_importance(&e, &info), 100000);
    for content in SAMPLES {
        assert!(a.calculate_complexity(content, &rust()) <= 100000);
    }
}

#[test]
fn complexity_of_empty_content() {
    assert_eq!(ContentAnalyzer::new().calculate_complexity("", &None), 4000);
}

#[test]
fn complexity_of_one_conditional() {
    // 2 lines, 9 bytes; cyclomatic 2, cognitive 1.5 (6 quarters), nesting 1.
    assert_eq!(ContentAnalyzer::new().calculate_complexity("if a {\n}\n", &rust()), 14609);
}

#[test]
fn complexity_counts_structure_declarations() {
    // 200 + 20 bytes + branching 4400 + impl 5000 + struct 2000.
    let c = ContentAnalyzer::new().calculate_complexity("struct A;\nimpl A {}\n", &rust());
    assert_eq!(c, 11620);
    // The C language gets no structure bonus.
    let c = ContentAnalyzer::new().calculate_complexity("struct A;\nimpl A {}\n", &Some("c".to_string()));
    assert_eq!(c, 4620);
}

#[test]
fn nesting_penalty_is_a_square_root() {
    let d = "if a {\nif b {\n}\n}\n";
    let p = ContentAnalyzer::new().analyze_branching_details(d, &rust());
    assert_eq!(p.max_nesting, 2);
    assert_eq!(p.cyclomatic_complexity, 3);
    // Cognitive: 1.5 at depth 1, 2.0 at depth 2: 14 quarters.
    assert_eq!(p.cognitive_quarters, 14);
    // 400 + 18 bytes + 12000 + 14000 + floor(400 * 2^1.5) = 1131.
    assert_eq!(ContentAnalyzer::new().calculate_complexity(d, &rust()), 27549);
}

#[test]
fn importance_formula() {
    let a = ContentAnalyzer::new();
    let mut e = entry("src/lib.rs", "lib.rs", false);
    e.size = 5000;
    let mut info = EnhancedFileInfo::default();
    info.complexity_score = Some(14609);
    info.api_surface = vec!["pub fn a()".to_string(), "pub fn b()".to_string()];
    assert_eq!(a.calculate_importance(&e, &info), 31382);
    let blank = EnhancedFileInfo::default();
    assert_eq!(a.calculate_importance(&entry("x.rs", "x.rs", false), &blank), 10000);
    let mut big = entry("core/x.rs", "x.rs", false);
    big.size = 50000;
    assert_eq!(a.calculate_importance(&big, &blank), 35000);
}

#[test]
fn sizes_are_written_in_units() {
    assert_eq!(OutputFormatter::format_size(0), "0B");
    assert_eq!(OutputFormatter::format_size(1023), "1023B");
    assert_eq!(OutputFormatter::format_size(1024), "1.0KB");
    assert_eq!(OutputFormatter::format_size(1536), "1.5KB");
    assert_eq!(OutputFormatter::format_size(1048575), "1024.0KB");
    assert_eq!(OutputFormatter::format_size(1048576), "1.0MB");
    assert_eq!(OutputFormatter::format_size(5 * 1048576 + 104858), "5.1MB");
}

#[test]
fn ages_are_written_in_units() {
    assert_eq!(OutputFormatter::format_time_ago(None), "unknown");
    assert_eq!(OutputFormatter::format_time_ago(Some(59)), "just now");
    assert_eq!(OutputFormatter::format_time_ago(Some(60)), "1m ago");
    assert_eq!(OutputFormatter::format_time_ago(Some(3599)), "59m ago");
    assert_eq!(OutputFormatter::format_time_ago(Some(3600)), "1h ago");
    assert_eq!(OutputFormatter::format_time_ago(Some(86399)), "23h ago");
    assert_eq!(OutputFormatter::format_time_ago(Some(3 * 86400)), "3d ago");
}

#[test]
fn languages_from_extensions() {
    let a = ContentAnalyzer::new();
    assert_eq!(a.detect_language("main.rs"), Some("rust".to_string()));
    assert_eq!(a.detect_language("view.tsx"), Some("typescript".to_string()));
    assert_eq!(a.detect_language("x.hpp"), Some("c".to_string()));
    assert_eq!(a.detect_language("x.cc"), Some("cpp".to_string()));
    assert_eq!(a.detect_language("archive.tar.yml"), Some("yaml".to_string()));
    assert_eq!(a.detect_language(".bashrc"), None);
    assert_eq!(a.detect_language("Makefile"), None);
}

#[test]
fn language_families() {
    assert_eq!(Language::from_name(&Some("cpp".to_string())), Language::CFamily);
    assert_eq!(Language::from_name(&Some("typescript".to_string())), Language::JsTs);
    assert_eq!(Language::from_name(&Some("markdown".to_string())), Language::Generic);
    assert_eq!(Language::from_name(&None), Language::Generic);
}

#[test]
fn summaries() {
    let a = ContentAnalyzer::new();
    assert_eq!(a.generate_summary("", &rust()), "Empty file");
    assert_eq!(
        a.generate_summary("\n// This module parses configuration\nfn x() {}", &rust()),
        "This module parses configuration"
    );
    assert_eq!(a.generate_summary("fn main() {}", &rust()), "Rust source code");
    assert_eq!(a.generate_summary("# short\nx", &None), "2 lines of code");
    let long = format!("// {}", "x".repeat(150));
    assert_eq!(a.generate_summary(&long, &None), "x".repeat(100));
}

#[test]
fn exports_imports_and_api() {
    let a = ContentAnalyzer::new();
    let src = "pub fn alpha(x: u8) {}\npub fn delta(\npub struct Beta;\nfn hidden() {}\n  pub enum E {}\nuse std::fmt;\nuse crate::a;;\n";
    assert_eq!(a.extract_exports(src, &rust()), vec!["alpha(x:", "delta", "Beta;"]);
    assert_eq!(a.extract_imports(src, &rust()), vec!["std::fmt", "crate::a"]);
    assert_eq!(
        a.extract_api_surface(src, &rust()),
        vec!["pub fn alpha(x: u8) {}", "pub fn delta(", "pub struct Beta;", "pub enum E {}"]
    );
    let js = "export function run() {}\nexport const x = 1;\nimport y from 'z';\n";
    let lang = Some("javascript".to_string());
    assert_eq!(a.extract_exports(js, &lang), vec!["function", "const"]);
    assert_eq!(a.extract_imports(js, &lang), vec!["import y from 'z';"]);
    assert!(a.extract_api_surface(js, &lang).is_empty());
    assert!(a.extract_exports(src, &None).is_empty());
}

#[test]
fn purposes() {
    let a = ContentAnalyzer::new();
    assert_eq!(a.infer_purpose("src/Tests/x.rs", "", &rust()), "Test code");
    assert_eq!(a.infer_purpose("app/main.rs", "fn main() {}", &rust()), "Application entry point");
    assert_eq!(a.infer_purpose("docs/readme.md", "", &Some("markdown".to_string())), "Documentation");
    assert_eq!(a.infer_purpose("x.toml", "", &Some("toml".to_string())), "Configuration file");
    assert_eq!(a.infer_purpose("Demo/x.rs", "", &rust()), "Example/demo code");
    assert_eq!(a.infer_purpose("run.sh", "", &Some("shell".to_string())), "Shell script");
}

#[test]
fn sanitizer_drops_comments_and_literals() {
    let a = ContentAnalyzer::new();
    assert_eq!(a.remove_strings_and_comments("let s = \"abc\"; // note"), "let s =  ; ");
    assert_eq!(a.remove_strings_and_comments("a /* b */ c"), "a   c");
    assert_eq!(a.remove_strings_and_comments("x /* y"), "x ");
    assert_eq!(a.remove_strings_and_comments("'a' + b"), "  + b");
}

#[test]
fn line_judgments() {
    let a = ContentAnalyzer::new();
    assert!(a.detect_hardcoded_dates("if ts == 1700000000 {"));
    assert!(!a.detect_hardcoded_dates("if ts == count {"));
    assert_eq!(a.count_hardcoded_values("if x == 1950 {"), 0);
    assert_eq!(a.count_hardcoded_values("if x == 99999999999 {"), 1);
    assert_eq!(a.count_hardcoded_values("if v == 1.2.3 {"), 0);
    assert_eq!(a.count_hardcoded_values("if v == \"a\" || w != \"b\" {"), 2);
    assert!(!a.analyze_branch_purity("if rand::random() {", &rust()));
    assert!(a.analyze_branch_purity("if a > b {", &rust()));
    assert!(a.detect_future_logic("if beta_features.on() {"));
    assert!(a.detect_past_logic("if api_version < 3 {"));
    assert!(!a.detect_past_logic("api_version < 3"));
}

#[test]
fn generic_tags_use_lowercase_names() {
    let m = GenericMapper;
    assert_eq!(m.classify(&entry("Project/README.MD", "README.MD", false)), vec!["documentation"]);
    assert_eq!(m.classify(&entry("src", "src", true)), vec!["directory"]);
    assert_eq!(m.classify(&entry("src/lib_test.rs", "lib_test.rs", false)), vec!["source", "test"]);
    assert_eq!(m.classify(&entry("notes.bin", "notes.bin", false)), vec!["unclassified"]);
    assert_eq!(m.name(), "generic");
}

#[test]
fn enhanced_tags_follow_analysis() {
    let mut e = entry("app/main.rs", "main.rs", false);
    let mut info = EnhancedFileInfo::default();
    info.language = Some("rust".to_string());
    info.purpose = Some("Application entry point".to_string());
    info.importance_score = Some(60000);
    info.complexity_score = Some(60000);
    e.enhanced_info = Some(info);
    let m = EnhancedGenericMapper::new();
    assert_eq!(
        m.classify(&e),
        vec!["source", "rust", "entrypoint", "high-importance", "high-complexity"]
    );
    assert_eq!(m.name(), "enhanced-generic");
}

#[test]
fn analysis_of_a_file_and_a_directory() {
    let a = ContentAnalyzer::new();
    let dir = a.analyze_file(&entry("src", "src", true), None).unwrap();
    assert!(dir.language.is_none() && dir.importance_score.is_none());
    let mut e = entry("src/lib.rs", "lib.rs", false);
    e.size = 100;
    let info = a.analyze_file(&e, Some("pub fn a() {}\n")).unwrap();
    assert_eq!(info.language, Some("rust".to_string()));
    assert_eq!(info.line_count, Some(1));
    assert_eq!(info.complexity_score, Some(4514));
    assert_eq!(info.exports, vec!["a()"]);
    assert_eq!(info.api_surface, vec!["pub fn a() {}"]);
    assert_eq!(info.purpose, Some("Core library functionality".to_string()));
    assert_eq!(info.importance_score, Some(22454));
    let unread = a.analyze_file(&e, None).unwrap();
    assert_eq!(unread.line_count, None);
    assert_eq!(unread.importance_score, Some(10100 + 10000));
}

#[test]
fn error_messages() {
    assert_eq!(ScanError::Io { message: "disk".to_string() }.message(), "IO error: disk");
    assert_eq!(ScanError::PermissionDenied { path: "/x".to_string() }.message(), "Permission denied: /x");
    assert_eq!(ScanError::PathNotFound { path: "/y".to_string() }.message(), "Path not found: /y");
    assert_eq!(ScanError::LimitExceeded { limit: 42 }.message(), "Scan limit exceeded: 42");
    assert_eq!(ScanError::InvalidConfig { message: "bad".to_string() }.message(), "Invalid configuration: bad");
}

#[test]
fn default_options_and_ignoring() {
    let o = ScanOptions::default();
    assert_eq!(o.ignore_patterns, vec![".git", "node_modules", "target", ".DS_Store"]);
    assert_eq!(o.mapper_profile, "generic");
    assert_eq!(o.output_format, OutputFormat::Basic);
    assert!(o.max_depth.is_none() && !o.enhanced_analysis && !o.include_hidden);
    assert!(o.should_ignore(".env", "./.env"));
    assert!(!o.should_ignore("main.rs", "./src/main.rs"));
    assert!(o.should_ignore("x.js", "./node_modules/x.js"));
    assert!(!o.should_ignore(".", "."));
    let mut shown = ScanOptions::default();
    shown.include_hidden = true;
    assert!(!shown.should_ignore(".env", "./.env"));
}

#[test]
fn new_profile_counts_nothing() {
    let d = BranchingDetails::new();
    assert_eq!(d.total_branches + d.conditional_count + d.cognitive_quarters, 0);
    assert_eq!(d.cyclomatic_complexity, 1);
    assert!(d.nesting_distribution.is_empty());
}

#[test]
fn go_select_case_and_for() {
    let content = "select {\ncase v := <-ch:\n}\nfor i := 0; i < n; i++ {\n}\n";
    let d = ContentAnalyzer::new().analyze_branching_details(content, &Some("go".to_string()));
    assert_eq!(d.switch_count, 1);
    assert_eq!(d.loop_count, 1);
    assert_eq!(d.conditional_count, 0);
    assert_eq!(d.total_branches, 3);
    assert_eq!(d.cyclomatic_complexity, 4);
}

#[test]
fn c_ternary_and_leading_for() {
    let content = "int x = a > b ? a : b;\nfor (;;) {\n}\n";
    let d = ContentAnalyzer::new().analyze_branching_details(content, &Some("c".to_string()));
    assert_eq!(d.conditional_count, 1);
    assert_eq!(d.loop_count, 1);
    assert_eq!(d.total_branches, 2);
}

#[test]
fn java_catch_is_a_conditional() {
    let content = "try {\n} catch (Exception e) {\n}\n";
    let d = ContentAnalyzer::new().analyze_branching_details(content, &Some("java".to_string()));
    assert_eq!(d.conditional_count, 1);
    assert_eq!(d.nesting_distribution.get(&2), Some(&1));
    assert_eq!(d.max_nesting, 2);
}

#[test]
fn largest_size_is_written_in_megabytes() {
    assert_eq!(OutputFormatter::format_size(u64::MAX), "17592186044416.0MB");
}

#[test]
fn whole_text_tallies() {
    let mut d = BranchingDetails::new();
    d.detect_hardcoded_dates("if d == \"12/25/2024\" {\nx = a/b/c\n}\n");
    assert_eq!(d.hardcoded_dates_count, 3);
    d.analyze_branch_purity("if fs::x() {\nif a {\nlet b = 1;\n", "rust");
    assert_eq!(d.pure_branches, 1);
    assert_eq!(d.non_pure_branches, 1);
    d.detect_future_logic("if v >= \"2.0\" && date == 2026 && feature_flags.on {\n");
    assert_eq!(d.future_logic_count, 3);
    d.detect_past_logic("if deprecated && api_level < 3 {\nlet x = 2021;\n");
    assert_eq!(d.past_logic_count, 2);
}

#[test]
fn extension_comes_from_the_final_path_part() {
    let a = ContentAnalyzer::new();
    assert_eq!(a.detect_language("src/main.rs"), Some("rust".to_string()));
    assert_eq!(a.detect_language("x/.rs"), None);
    assert_eq!(a.detect_language("a.d/Makefile"), None);
    assert_eq!(a.detect_language("pkg/lib.go/"), Some("go".to_string()));
}

#[test]
fn loops_opening_a_line_count() {
    let content = "for (let i = 0; i < n; i++) {\n}\nwhile (x) {\n}\n";
    for lang in ["javascript", "markdown"] {
        let d = ContentAnalyzer::new().analyze_branching_details(content, &Some(lang.to_string()));
        assert_eq!(d.loop_count, 2);
        // Each loop weighs 1.5 * (1 + 0.5 * 1) = 2.25 points.
        assert_eq!(d.cognitive_quarters, 18);
    }
}
