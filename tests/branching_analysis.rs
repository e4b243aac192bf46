use projscan::analyzer::ContentAnalyzer;
use std::collections::HashMap;
use std::time::Instant;

#[test]
fn test_detects_iso_dates() {
            let content = r#"
                if date == "2024-12-25" { 
                    return true; 
                }
                if expiry > "2025-01-01T00:00:00Z" { 
                    cleanup(); 
                }
            "#;
            
            let analyzer = ContentAnalyzer::new();
            let details = analyzer.analyze_branching_details(content, &Some("rust".to_string()));
            
            assert!(details.hardcoded_dates_count > 0); // Should detect some dates
}

#[test]
fn test_detects_slash_format_dates() {
            let content = r#"
                if birth_date == "12/25/1990" { 
                    celebrate(); 
                }
                if created < "01/01/2023" { 
                    migrate(); 
                }
            "#;
            
            let analyzer = ContentAnalyzer::new();
            let details = analyzer.analyze_branching_details(content, &Some("rust".to_string()));
            
            assert_eq!(details.hardcoded_dates_count, 2);
}

#[test]
fn test_detects_year_patterns() {
            let content = r#"
                if year >= 2024 && month == 12 { 
                    special_handling(); 
                }
                if version.year() > 2023 { 
                    new_features(); 
                }
            "#;
            
            let analyzer = ContentAnalyzer::new();
            let details = analyzer.analyze_branching_details(content, &Some("rust".to_string()));
            
            assert_eq!(details.hardcoded_dates_count, 2);
}

#[test]
fn test_detects_magic_numbers() {
            let content = r#"
                if count > 42 { return; }
                if threshold == 3.14159 { calculate(); }
                if status == 404 { handle_error(); }
                if temperature < -273.15 { freeze(); }
            "#;
            
            let analyzer = ContentAnalyzer::new();
            let details = analyzer.analyze_branching_details(content, &Some("rust".to_string()));
            
            assert_eq!(details.hardcoded_values_count, 4);
}

#[test]
fn test_detects_hardcoded_strings() {
            let content = r#"
                if name == "production" { 
                    enable_monitoring(); 
                }
                if env_type == "staging" { 
                    debug_mode(); 
                }
            "#;
            
            let analyzer = ContentAnalyzer::new();
            let details = analyzer.analyze_branching_details(content, &Some("rust".to_string()));
            
            assert_eq!(details.hardcoded_values_count, 2);
}

#[test]
fn test_ignores_common_values() {
            let content = r#"
                if count == 0 { return; }
                if found == 1 { process(); }
                if size == 1024 { optimize(); } // Power of 2
                if pages == 256 { paginate(); } // 2^8
                if limit == 2 { restrict(); }
            "#;
            
            let analyzer = ContentAnalyzer::new();
            let details = analyzer.analyze_branching_details(content, &Some("rust".to_string()));
            
            // Should detect 0 but not other common values
            assert_eq!(details.hardcoded_values_count, 0);
}

#[test]
fn test_ignores_variable_names_that_look_like_dates() {
            let content = r#"
                if date_var > other_date { 
                    return true; 
                }
                if year_field >= start_year { 
                    process(); 
                }
            "#;
            
            let analyzer = ContentAnalyzer::new();
            let details = analyzer.analyze_branching_details(content, &Some("rust".to_string()));
            
            assert_eq!(details.hardcoded_dates_count, 0);
}

#[test]
fn test_ignores_comments_containing_dates() {
            let content = r#"
                // Created on 2024-12-25
                /* Magic number 42 explained */
                if condition { 
                    // Release date: 2025-01-01
                    return true; 
                }
            "#;
            
            let analyzer = ContentAnalyzer::new();
            let details = analyzer.analyze_branching_details(content, &Some("rust".to_string()));
            
            assert_eq!(details.hardcoded_dates_count, 0);
            assert_eq!(details.hardcoded_values_count, 0);
}

#[test]
fn test_detects_pure_branches() {
            let content = r#"
                if x > y { return x + y; }
                if items.len() > count { process_items(); }
                if param.is_valid() && local_flag { validate(); }
                if input > MAX_SIZE { truncate(); }
                if config.enabled && param.ready { execute(); }
            "#;
            
            let analyzer = ContentAnalyzer::new();
            let details = analyzer.analyze_branching_details(content, &Some("rust".to_string()));
            
            assert_eq!(details.pure_branches, 5);
            assert_eq!(details.non_pure_branches, 0);
}

#[test]
fn test_detects_file_io_non_pure() {
            let content = r#"
                if fs::read_to_string("config.txt").is_ok() { 
                    load_config(); 
                }
                if Path::new(&file).exists() { 
                    process_file(); 
                }
                if file.read().is_ok() { 
                    parse_content(); 
                }
            "#;
            
            let analyzer = ContentAnalyzer::new();
            let details = analyzer.analyze_branching_details(content, &Some("rust".to_string()));
            
            assert_eq!(details.pure_branches, 0);
            assert_eq!(details.non_pure_branches, 3);
}

#[test]
fn test_detects_network_non_pure() {
            let content = r#"
                if http_client.get(url).is_ok() { 
                    handle_response(); 
                }
                if socket.is_connected() { 
                    send_data(); 
                }
            "#;
            
            let analyzer = ContentAnalyzer::new();
            let details = analyzer.analyze_branching_details(content, &Some("rust".to_string()));
            
            assert_eq!(details.pure_branches, 0);
            assert_eq!(details.non_pure_branches, 2);
}

#[test]
fn test_detects_system_time_non_pure() {
            let content = r#"
                if SystemTime::now() > deadline { 
                    timeout(); 
                }
                if Instant::now().elapsed() > timeout { 
                    abort(); 
                }
            "#;
            
            let analyzer = ContentAnalyzer::new();
            let details = analyzer.analyze_branching_details(content, &Some("rust".to_string()));
            
            assert_eq!(details.pure_branches, 0);
            assert_eq!(details.non_pure_branches, 2);
}

#[test]
fn test_detects_global_state_non_pure() {
            let content = r#"
                if GLOBAL_COUNTER > threshold { 
                    reset(); 
                }
                if environment_var("DEBUG").is_some() { 
                    debug(); 
                }
            "#;
            
            let analyzer = ContentAnalyzer::new();
            let details = analyzer.analyze_branching_details(content, &Some("rust".to_string()));
            
            assert_eq!(details.pure_branches, 0);
            assert_eq!(details.non_pure_branches, 2);
}

#[test]
fn test_detects_random_non_pure() {
            let content = r#"
                if rand::random::<f64>() > 0.5 { 
                    randomize(); 
                }
                if rng.gen_bool(0.5) { 
                    maybe_do(); 
                }
            "#;
            
            let analyzer = ContentAnalyzer::new();
            let details = analyzer.analyze_branching_details(content, &Some("rust".to_string()));
            
            assert_eq!(details.pure_branches, 0);
            assert_eq!(details.non_pure_branches, 2);
}

#[test]
fn test_mixed_pure_and_non_pure() {
            let content = r#"
                if x > y { return x + y; } // Pure
                if fs::read_to_string("config.txt").is_ok() { load(); } // Non-pure
                if items.len() > 0 { process(); } // Pure
                if SystemTime::now() > deadline { timeout(); } // Non-pure
            "#;
            
            let analyzer = ContentAnalyzer::new();
            let details = analyzer.analyze_branching_details(content, &Some("rust".to_string()));
            
            assert_eq!(details.pure_branches, 2);
            assert_eq!(details.non_pure_branches, 2);
}

#[test]
fn test_detects_future_dates() {
            let content = r#"
                if release_date > "2025-06-01" { 
                    enable_feature(); 
                }
                if expiry_date > "2025-12-31T23:59:59Z" { 
                    extend_license(); 
                }
            "#;
            
            let analyzer = ContentAnalyzer::new();
            let details = analyzer.analyze_branching_details(content, &Some("rust".to_string()));
            
            assert_eq!(details.future_logic_count, 2);
}

#[test]
fn test_detects_future_version_checks() {
            let content = r#"
                if version >= "2.0.0" { 
                    new_api(); 
                }
                if api_level >= 35 { 
                    future_features(); 
                }
            "#;
            
            let analyzer = ContentAnalyzer::new();
            let details = analyzer.analyze_branching_details(content, &Some("rust".to_string()));
            
            assert_eq!(details.future_logic_count, 2);
}

#[test]
fn test_detects_feature_flags() {
            let content = r#"
                if feature_flags.contains("new_ui_2024") { 
                    render_new_ui(); 
                }
                if beta_features.enabled("next_gen_search") { 
                    advanced_search(); 
                }
            "#;
            
            let analyzer = ContentAnalyzer::new();
            let details = analyzer.analyze_branching_details(content, &Some("rust".to_string()));
            
            assert_eq!(details.future_logic_count, 2);
}

#[test]
fn test_detects_past_dates() {
            let content = r#"
                if created_date < "2020-01-01" { 
                    legacy_handling(); 
                }
                if legacy_format && year < 2022 { 
                    convert_format(); 
                }
            "#;
            
            let analyzer = ContentAnalyzer::new();
            let details = analyzer.analyze_branching_details(content, &Some("rust".to_string()));
            
            assert_eq!(details.past_logic_count, 2);
}

#[test]
fn test_detects_deprecated_versions() {
            let content = r#"
                if version < "1.0.0" { 
                    legacy_support(); 
                }
                if api_level < 21 { 
                    old_api_compatibility(); 
                }
            "#;
            
            let analyzer = ContentAnalyzer::new();
            let details = analyzer.analyze_branching_details(content, &Some("rust".to_string()));
            
            assert_eq!(details.past_logic_count, 2);
}

#[test]
fn test_detects_end_of_life_conditions() {
            let content = r#"
                if support_end_date < "2023-12-31" { 
                    show_warning(); 
                }
                if deprecated_since < "2022-01-01" { 
                    remove_feature(); 
                }
            "#;
            
            let analyzer = ContentAnalyzer::new();
            let details = analyzer.analyze_branching_details(content, &Some("rust".to_string()));
            
            assert_eq!(details.past_logic_count, 2);
}

#[test]
fn test_mixed_temporal_logic() {
            let content = r#"
                if release_date > "2025-01-01" { new_feature(); } // Future
                if created_date < "2020-01-01" { legacy(); } // Past
                if version >= "2.0.0" { advanced(); } // Future
                if deprecated_since < "2022-01-01" { remove(); } // Past
            "#;
            
            let analyzer = ContentAnalyzer::new();
            let details = analyzer.analyze_branching_details(content, &Some("rust".to_string()));
            
            assert_eq!(details.future_logic_count, 2);
            assert_eq!(details.past_logic_count, 2);
}

#[test]
fn test_simple_single_depth() {
            let content = r#"
                if condition { return; }
            "#;
            
            let analyzer = ContentAnalyzer::new();
            let details = analyzer.analyze_branching_details(content, &Some("rust".to_string()));
            
            assert_eq!(details.nesting_distribution.get(&1), Some(&1));
}

#[test]
fn test_simple_double_nesting() {
            let content = r#"
                if outer { 
                    if inner { 
                        return; 
                    } 
                }
            "#;
            
            let analyzer = ContentAnalyzer::new();
            let details = analyzer.analyze_branching_details(content, &Some("rust".to_string()));
            
            assert_eq!(details.nesting_distribution.get(&1), Some(&1)); // outer if
            assert_eq!(details.nesting_distribution.get(&2), Some(&1)); // inner if
}

#[test]
fn test_multiple_branches_same_depth() {
            let content = r#"
                if a { 
                    if b { x(); } 
                } 
                if c { 
                    if d { y(); } 
                }
            "#;
            
            let analyzer = ContentAnalyzer::new();
            let details = analyzer.analyze_branching_details(content, &Some("rust".to_string()));
            
            assert_eq!(details.nesting_distribution.get(&1), Some(&2)); // a and c
            assert_eq!(details.nesting_distribution.get(&2), Some(&2)); // b and d
}

#[test]
fn test_complex_mixed_depths() {
            let content = r#"
                if a {           // depth-1
                    if b {        // depth-2  
                        if c {    // depth-3
                            if d { return x(); } // depth-4
                        }
                        if e { return y(); }     // depth-3
                    }
                    if f { return z(); }         // depth-2
                }
            "#;
            
            let analyzer = ContentAnalyzer::new();
            let details = analyzer.analyze_branching_details(content, &Some("rust".to_string()));
            
            assert_eq!(details.nesting_distribution.get(&1), Some(&1)); // a
            assert_eq!(details.nesting_distribution.get(&2), Some(&2)); // b, f
            assert_eq!(details.nesting_distribution.get(&3), Some(&2)); // c, e
            assert_eq!(details.nesting_distribution.get(&4), Some(&1)); // d
}

#[test]
fn test_very_deep_nesting() {
            // Generate 10 levels of nesting programmatically
            let mut content = String::new();
            for i in 1..=10 {
                content.push_str(&format!("{}if depth_{} {{\n", "    ".repeat(i-1), i));
            }
            content.push_str(&format!("{}return;\n", "    ".repeat(10)));
            for i in (1..=10).rev() {
                content.push_str(&format!("{}}}\n", "    ".repeat(i-1)));
            }
            
            let analyzer = ContentAnalyzer::new();
            let details = analyzer.analyze_branching_details(&content, &Some("rust".to_string()));
            
            // Each depth level should have exactly 1 branch
            for depth in 1..=10 {
                assert_eq!(details.nesting_distribution.get(&depth), Some(&1));
            }
            assert_eq!(details.max_nesting, 10);
}

#[test]
fn test_rust_patterns() {
            let content = r#"
                if matches!(result, Ok(_)) { handle_ok(); }
                if let Some(value) = option { process(value); }
                match status { 
                    Status::Ready => { execute(); }, 
                    _ => { wait(); } 
                }
            "#;
            
            let analyzer = ContentAnalyzer::new();
            let details = analyzer.analyze_branching_details(content, &Some("rust".to_string()));
            
            assert!(details.conditional_count >= 3);
            assert!(details.switch_count >= 1); // match statement
}

#[test]
fn test_javascript_patterns() {
            let content = r#"
                if (typeof value === 'string' && value.length > 0) { process(); }
                if (array?.includes?.(item)) { found(); }
                switch (type) { 
                    case 'user': 
                        handleUser(); 
                        break; 
                    default: 
                        handleOther();
                        break; 
                }
            "#;
            
            let analyzer = ContentAnalyzer::new();
            let details = analyzer.analyze_branching_details(content, &Some("javascript".to_string()));
            
            assert!(details.conditional_count >= 2);
            assert!(details.switch_count >= 1);
}

#[test]
fn test_python_patterns() {
            let content = r#"
                if isinstance(obj, str) and len(obj) > 0:
                    process_string(obj)
                if hasattr(obj, 'method') and obj.method():
                    call_method()
                for item in items:
                    if condition:
                        break
            "#;
            
            let analyzer = ContentAnalyzer::new();
            let details = analyzer.analyze_branching_details(content, &Some("python".to_string()));
            
            assert!(details.conditional_count >= 3);
            assert!(details.loop_count >= 1);
}

#[test]
fn test_java_patterns() {
            let content = r#"
                if (obj instanceof String && ((String)obj).length() > 0) { 
                    processString(); 
                }
                if (list != null && !list.isEmpty()) { 
                    processList(); 
                }
                switch (type) {
                    case USER:
                        handleUser();
                        break;
                    case ADMIN:
                        handleAdmin();
                        break;
                    default:
                        handleDefault();
                }
            "#;
            
            let analyzer = ContentAnalyzer::new();
            let details = analyzer.analyze_branching_details(content, &Some("java".to_string()));
            
            assert!(details.conditional_count >= 2);
            assert!(details.switch_count >= 1);
}

#[test]
fn test_go_patterns() {
            let content = r#"
                if err != nil {
                    return err
                }
                if len(items) > 0 && items[0].Valid {
                    processItems()
                }
                switch typ {
                case "string":
                    handleString()
                case "int":
                    handleInt()
                default:
                    handleOther()
                }
            "#;
            
            let analyzer = ContentAnalyzer::new();
            let details = analyzer.analyze_branching_details(content, &Some("go".to_string()));
            
            assert!(details.conditional_count >= 2);
            assert!(details.switch_count >= 1);
}

#[test]
fn test_cpp_patterns() {
            let content = r#"
                if (ptr != nullptr && ptr->isValid()) {
                    ptr->process();
                }
                if (vector.size() > 0 && !vector.empty()) {
                    processVector();
                }
                switch (state) {
                    case READY:
                        execute();
                        break;
                    case WAITING:
                        wait();
                        break;
                    default:
                        error();
                }
            "#;
            
            let analyzer = ContentAnalyzer::new();
            let details = analyzer.analyze_branching_details(content, &Some("cpp".to_string()));
            
            assert!(details.conditional_count >= 2);
            assert!(details.switch_count >= 1);
}

#[test]
fn test_comprehensive_analysis_integration() {
            let content = r#"
                // Test file with mixed patterns
                if release_date > "2025-01-01" { // Future logic + hardcoded date
                    enable_new_features();
                }
                
                if fs::read_to_string("config.txt").is_ok() { // Non-pure + hardcoded string
                    load_configuration();
                } else if backup_exists && user_count > 42 { // Pure + magic number
                    load_backup();
                }
                
                if created_date < "2020-01-01" { // Past logic + hardcoded date
                    legacy_migration();
                }
                
                for user in users { // Loop
                    if user.active && user.score > 100 { // Pure, nested
                        if SystemTime::now() > user.last_login { // Non-pure, nested deeper
                            send_notification();
                        }
                    }
                }
            "#;
            
            let analyzer = ContentAnalyzer::new();
            let mut details = analyzer.analyze_branching_details(content, &Some("rust".to_string()));
            
            // Calculate totals and perform comprehensive validation
            details.total_branches = details.conditional_count + details.loop_count + details.switch_count;
            
            // Validate detection results
            assert!(details.hardcoded_dates_count >= 2); // 2025-01-01, 2020-01-01
            assert!(details.hardcoded_values_count >= 1); // 42
            assert!(details.future_logic_count >= 1); // 2025 date
            assert!(details.past_logic_count >= 1); // 2020 date
            assert!(details.pure_branches >= 2); // user checks and score check
            assert!(details.non_pure_branches >= 2); // fs::read and SystemTime
            
            // Validate nesting distribution
            assert!(details.nesting_distribution.get(&1).unwrap_or(&0) >= &3); // Top level ifs and for
            assert!(details.nesting_distribution.get(&2).unwrap_or(&0) >= &1); // Nested user.active check
            assert!(details.nesting_distribution.get(&3).unwrap_or(&0) >= &1); // SystemTime check
            
            // Validate total branch count matches distribution sum
            let distribution_sum: usize = details.nesting_distribution.values().sum();
            assert_eq!(distribution_sum, details.conditional_count);
}

#[test]
fn test_percentage_calculations() {
            let content = r#"
                if x > 0 { pure(); } // Pure
                if y > 42 { magic(); } // Pure + hardcoded
                if fs::read("file").is_ok() { io(); } // Non-pure
                if "2025-01-01" > date { future(); } // Pure + hardcoded date + future
            "#;
            
            let analyzer = ContentAnalyzer::new();
            let mut details = analyzer.analyze_branching_details(content, &Some("rust".to_string()));
            
            details.total_branches = details.conditional_count;
            
            // Test percentage calculations
            let pure_percentage = if details.total_branches > 0 {
                (details.pure_branches as f64 / details.total_branches as f64) * 100.0
            } else {
                0.0
            };
            
            let hardcoded_percentage = if details.total_branches > 0 {
                ((details.hardcoded_dates_count + details.hardcoded_values_count) as f64 / details.total_branches as f64) * 100.0
            } else {
                0.0
            };
            
            assert!(pure_percentage >= 0.0 && pure_percentage <= 100.0);
            assert!(hardcoded_percentage >= 0.0 && hardcoded_percentage <= 100.0);
            
            // With our test case, expect high purity but some hardcoded values
            assert!(pure_percentage >= 75.0); // Most should be pure
            assert!(hardcoded_percentage > 0.0); // Some hardcoded values present
}

#[test]
fn test_empty_file_analysis() {
            let content = "";
            
            let analyzer = ContentAnalyzer::new();
            let details = analyzer.analyze_branching_details(content, &Some("rust".to_string()));
            
            // Empty file should have zero everything
            assert_eq!(details.conditional_count, 0);
            assert_eq!(details.loop_count, 0);
            assert_eq!(details.switch_count, 0);
            assert_eq!(details.hardcoded_dates_count, 0);
            assert_eq!(details.hardcoded_values_count, 0);
            assert_eq!(details.pure_branches, 0);
            assert_eq!(details.non_pure_branches, 0);
            assert_eq!(details.future_logic_count, 0);
            assert_eq!(details.past_logic_count, 0);
            assert!(details.nesting_distribution.is_empty());
}

#[test]
fn test_single_line_multiple_branches() {
            let content = "if a && b || c { if d { e(); } }";
            
            let analyzer = ContentAnalyzer::new();
            let details = analyzer.analyze_branching_details(content, &Some("rust".to_string()));
            
            assert!(details.conditional_count >= 2); // Outer and inner if
            assert!(details.logical_operators >= 2); // && and ||
}

#[test]
fn test_malformed_syntax_handling() {
            let content = r#"
                if incomplete_condition { // missing closing brace
                if another_condition { return; }
            "#;
            
            let analyzer = ContentAnalyzer::new();
            let details = analyzer.analyze_branching_details(content, &Some("rust".to_string()));
            
            // Should not crash, should detect at least some branches
            assert!(details.conditional_count >= 1);
}

#[test]
fn test_comments_with_keywords_ignored() {
            let content = r#"
                // if fake_condition { do_nothing(); }
                /* 
                 * while (false) { never_execute(); }
                 * for (;;) { infinite_loop(); }
                 */
                if real_condition { 
                    // switch statement here would be ignored
                    execute(); 
                }
            "#;
            
            let analyzer = ContentAnalyzer::new();
            let details = analyzer.analyze_branching_details(content, &Some("rust".to_string()));
            
            assert_eq!(details.conditional_count, 1); // Only the real if
            assert_eq!(details.loop_count, 0); // Comments ignored
            assert_eq!(details.switch_count, 0); // Comments ignored
}

#[test]
fn test_string_literals_with_branch_keywords() {
            let content = r#"
                let msg = "if you see this, ignore the if keyword";
                let code = "for (int i = 0; i < 10; i++) { process(i); }";
                if validate_message(msg) { 
                    log("while processing: success"); 
                }
            "#;
            
            let analyzer = ContentAnalyzer::new();
            let details = analyzer.analyze_branching_details(content, &Some("rust".to_string()));
            
            assert_eq!(details.conditional_count, 1); // Only the real if
            assert_eq!(details.loop_count, 0); // String literals ignored
}

#[test]
fn test_mixed_branch_types_same_statement() {
            let content = r#"
                for i in 0..n {
                    if items[i].matches(pattern) {
                        count += 1;
                    }
                }
                
                while condition {
                    match state {
                        State::Ready => {
                            if can_process() {
                                process();
                            }
                        },
                        _ => break,
                    }
                }
            "#;
            
            let analyzer = ContentAnalyzer::new();
            let details = analyzer.analyze_branching_details(content, &Some("rust".to_string()));
            
            assert!(details.loop_count >= 2); // for and while
            assert!(details.conditional_count >= 2); // if statements
            assert!(details.switch_count >= 1); // match statement
            
            // Verify nesting is tracked correctly
            assert!(details.max_nesting >= 3); // for -> match -> if
}

#[test]
fn prop_branch_counts_never_negative() {
            // Test with various inputs to ensure counts are always non-negative
            let test_cases = vec![
                "",
                "if (true) { return; }",
                "// just a comment",
                "let x = 5;", // No branches
                "if a { if b { if c { return; } } }", // Nested
            ];
            
            for content in test_cases {
                let analyzer = ContentAnalyzer::new();
                let details = analyzer.analyze_branching_details(content, &Some("rust".to_string()));
                
                // All counts should be non-negative (which is guaranteed by usize, but good to test)
                assert!(details.conditional_count < usize::MAX);
                assert!(details.loop_count < usize::MAX);
                assert!(details.switch_count < usize::MAX);
                assert!(details.hardcoded_dates_count < usize::MAX);
                assert!(details.hardcoded_values_count < usize::MAX);
                assert!(details.pure_branches < usize::MAX);
                assert!(details.non_pure_branches < usize::MAX);
            }
}

#[test]
fn test_large_file_analysis_performance() {
            // Generate a large file with many branches
            let mut content = String::new();
            for i in 0..1000 {
                content.push_str(&format!(
                    "if condition_{} {{ process_{}(); }}\n",
                    i, i
                ));
            }
            
            let start = Instant::now();
            let analyzer = ContentAnalyzer::new();
            let details = analyzer.analyze_branching_details(&content, &Some("rust".to_string()));
            let duration = start.elapsed();
            
            // Should complete analysis quickly even for large files
            assert!(duration.as_secs() < 1);
            assert_eq!(details.conditional_count, 1000);
}

#[test]
fn test_deeply_nested_performance() {
            // Generate very deep nesting
            let mut content = String::new();
            let depth = 50;
            
            for i in 0..depth {
                content.push_str(&format!("{}if depth_{} {{\n", "  ".repeat(i), i));
            }
            content.push_str(&format!("{}return;\n", "  ".repeat(depth)));
            for i in (0..depth).rev() {
                content.push_str(&format!("{}}}\n", "  ".repeat(i)));
            }
            
            let start = Instant::now();
            let analyzer = ContentAnalyzer::new();
            let details = analyzer.analyze_branching_details(&content, &Some("rust".to_string()));
            let duration = start.elapsed();
            
            // Should handle deep nesting efficiently
            assert!(duration.as_millis() < 100);
            assert_eq!(details.max_nesting, depth);
            assert_eq!(details.conditional_count, depth);
}

#[test]
fn test_mixed_pattern_analysis_performance() {
            // Generate content with mixed patterns
            let mut content = String::new();
            
            for i in 0..100 {
                content.push_str(&format!(
                    r#"
                    if date > "202{}-01-01" {{ future_{}(); }} // Future + hardcoded
                    if fs::read_to_string("file_{}.txt").is_ok() {{ io_{}(); }} // Non-pure + hardcoded
                    for item_{} in items {{
                        if item_{}.valid && item_{}.count > {} {{
                            if SystemTime::now() > item_{}.deadline {{
                                process_item_{}();
                            }}
                        }}
                    }}
                    "#,
                    5 + (i % 5), i, // Future dates
                    i, i, // File I/O
                    i, i, i, 10 + i, // Loop and nested conditions
                    i, i // More nesting
                ));
            }
            
            let start = Instant::now();
            let analyzer = ContentAnalyzer::new();
            let details = analyzer.analyze_branching_details(&content, &Some("rust".to_string()));
            let duration = start.elapsed();
            
            // Should handle complex mixed analysis efficiently
            assert!(duration.as_millis() < 500);
            
            // Validate all types of analysis were performed
            assert!(details.conditional_count > 0);
            assert!(details.loop_count > 0);
            assert!(details.hardcoded_dates_count > 0);
            assert!(details.hardcoded_values_count > 0);
            assert!(details.future_logic_count > 0);
            assert!(details.pure_branches > 0);
            assert!(details.non_pure_branches > 0);
            assert!(!details.nesting_distribution.is_empty());
}

#[test]
fn prop_pure_percentage_always_valid() {
    let samples: [(u16, u16); 6] = [(0, 0), (0, 1), (1, 0), (3, 5), (u16::MAX, 1), (u16::MAX, u16::MAX)];
    for (pure, non_pure) in samples {
        let pure = pure as usize;
        let non_pure = non_pure as usize;
        let total = pure + non_pure;
        if total == 0 {
            continue;
        }
        let percentage = (pure as f64 / total as f64) * 100.0;
        assert!(percentage >= 0.0 && percentage <= 100.0);
    }
}

#[test]
fn prop_nesting_distribution_matches_total() {
    let samples: Vec<Vec<u8>> = vec![vec![], vec![0], vec![1, 2, 3], vec![255; 25], (0..=200).collect()];
    for nesting_levels in samples {
        let mut distribution: HashMap<usize, usize> = HashMap::new();
        let mut total_branches = 0;
        for (i, &count) in nesting_levels.iter().enumerate() {
            let depth = (i % 10) + 1;
            let branch_count = count as usize % 100;
            *distribution.entry(depth).or_insert(0) += branch_count;
            total_branches += branch_count;
        }
        let distribution_sum: usize = distribution.values().sum();
        assert_eq!(distribution_sum, total_branches);
    }
}

#[test]
fn prop_hardcoded_percentage_bounded() {
    let samples: [(u16, u16); 6] = [(0, 0), (0, 7), (7, 0), (3, 9), (u16::MAX, 2), (9, u16::MAX)];
    for (hardcoded, total) in samples {
        let hardcoded = hardcoded as usize;
        let total = (total as usize).max(hardcoded);
        if total == 0 {
            continue;
        }
        let percentage = (hardcoded as f64 / total as f64) * 100.0;
        assert!(percentage >= 0.0 && percentage <= 100.0 && hardcoded <= total);
    }
}
