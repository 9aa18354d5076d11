use git_ai::agent::AgentLite;
use git_ai::copilot::CopilotCLI;
use git_ai::git::GitManager;

#[test]
fn test_parse_analysis() {
    let text = "IMPACT: Updated authentication logic\n\
                RISKS:\n\
                - Breaking change in API\n\
                - Missing error handling\n\
                AFFECTED:\n\
                - Login component\n\
                - Auth service\n\
                TESTS:\n\
                - Test login flow\n\
                - Test error cases";

    let analysis = CopilotCLI::parse_analysis(text).unwrap();
    assert_eq!(analysis.impact_summary, "Updated authentication logic");
    assert_eq!(analysis.potential_issues.len(), 2);
    assert_eq!(analysis.affected_areas.len(), 2);
    assert_eq!(analysis.test_recommendations.len(), 2);
}

#[test]
fn parse_analysis_items_and_markers() {
    let text = "RISKS:\n* Star item \n- - Double dash\n-\nAFFECTED:\n  - Indented area\nTESTS:\n- Run suite\nIMPACT:   Core change  ";
    let a = CopilotCLI::parse_analysis(text).unwrap();
    assert_eq!(a.impact_summary, "Core change");
    assert_eq!(a.potential_issues, vec!["Star item".to_string(), "Double dash".to_string()]);
    assert_eq!(a.affected_areas, vec!["Indented area".to_string()]);
    assert_eq!(a.test_recommendations, vec!["Run suite".to_string()]);
}

#[test]
fn parse_analysis_falls_back_to_first_lines() {
    let a = CopilotCLI::parse_analysis("first line\nsecond line\nthird\nfourth").unwrap();
    assert_eq!(a.impact_summary, "first line second line third");
    assert!(a.potential_issues.is_empty());
}

#[test]
fn analysis_prompt_skips_empty_diff() {
    assert!(CopilotCLI::analysis_prompt("", &[]).is_none());
    let files = vec!["a.rs".to_string(), "b.rs".to_string()];
    let p = CopilotCLI::analysis_prompt("+x", &files).unwrap();
    assert!(p.contains("Changed files: a.rs, b.rs\n\nGit diff:\n+x\n\nPlease provide:"));
    let none = CopilotCLI::no_changes_analysis();
    assert_eq!(none.impact_summary, "No changes detected");
}

#[test]
fn status_message_reflects_availability() {
    assert_eq!(
        CopilotCLI::get_status_message(true),
        "GitHub Copilot CLI available for code analysis"
    );
    assert_eq!(
        CopilotCLI::get_status_message(false),
        "GitHub Copilot CLI not available (install: gh auth login)"
    );
}

#[test]
fn file_importance_keeps_top_five_stably() {
    let stats: Vec<(String, u32, u32)> = vec![
        ("a".to_string(), 1, 1),
        ("b".to_string(), 10, 0),
        ("c".to_string(), 0, 2),
        ("d".to_string(), 5, 5),
        ("e".to_string(), 3, 0),
        ("f".to_string(), 0, 0),
        ("g".to_string(), 2, 0),
    ];
    let top = AgentLite::analyze_file_importance(&stats);
    let names: Vec<(&str, u32)> = top.iter().map(|(f, s)| (f.as_str(), *s)).collect();
    assert_eq!(names, vec![("b", 10), ("d", 10), ("e", 3), ("a", 2), ("c", 2)]);
}

#[test]
fn file_importance_of_nothing_is_empty() {
    assert!(AgentLite::analyze_file_importance(&[]).is_empty());
}

#[test]
fn scope_from_branch_prefixes() {
    assert_eq!(AgentLite::extract_scope_from_branch("feature/user-auth"), Some("user-auth".to_string()));
    assert_eq!(AgentLite::extract_scope_from_branch("bugfix/login-error"), Some("login-error".to_string()));
    assert_eq!(AgentLite::extract_scope_from_branch("fix/something"), Some("something".to_string()));
    assert_eq!(AgentLite::extract_scope_from_branch("main"), None);
}

#[test]
fn breaking_changes_in_order() {
    let diff = "-pub fn old()\n- fn a()\n+ fn a(x)\nALTER TABLE users";
    assert_eq!(
        AgentLite::detect_breaking_changes(diff),
        vec![
            "Removed public API".to_string(),
            "Function signature changed".to_string(),
            "Database schema modified".to_string()
        ]
    );
    assert!(AgentLite::detect_breaking_changes("+ fn only_added()").is_empty());
}

#[test]
fn candidate_symbols_sorted_unique_first_three() {
    let diff = "+fn zeta(a: u8) {\n+struct Alpha;\n+fn beta()\n+fn zeta()\n+type Gamma = u8;\n-fn removed()";
    let symbols = AgentLite::extract_candidate_symbols(diff);
    assert_eq!(symbols, vec!["Alpha".to_string(), "Gamma".to_string(), "beta".to_string()]);
}

#[test]
fn candidate_symbols_come_from_the_patterns() {
    let names = AgentLite::candidate_symbols("+def handler(x):\n+class Widget:\n");
    assert_eq!(names, vec!["handler".to_string(), "Widget".to_string()]);
    assert!(AgentLite::candidate_symbols("no additions here").is_empty());
}

#[test]
fn select_symbols_dedups_and_sorts() {
    let names = vec!["b".to_string(), "a".to_string(), "b".to_string(), "ab".to_string(), "c".to_string()];
    assert_eq!(
        AgentLite::select_symbols(names),
        vec!["a".to_string(), "ab".to_string(), "b".to_string()]
    );
}

#[test]
fn analysis_context_sections() {
    let files = vec![("src/a.rs".to_string(), 12u32)];
    let breaking = vec!["Removed public API".to_string()];
    let usage = vec![("foo".to_string(), 3usize), ("bar".to_string(), 0usize)];
    let ctx = AgentLite::analysis_context(&files, &breaking, Some("auth".to_string()), &usage);
    assert_eq!(
        ctx,
        "\n## Analysis Context\n\nKey files modified:\n- src/a.rs (impact: 12)\n\nPotential breaking changes:\n- Removed public API\n\nSuggested scope: auth\n\nSymbol usage:\nSymbol 'foo' found in 3 locations\n"
    );
    assert_eq!(AgentLite::analysis_context(&[], &[], None, &[]), "\n## Analysis Context\n");
}

#[test]
fn numstat_lines_parse() {
    let out = "3\t1\tsrc/a.rs\n-\t-\timage.png\nbad line\n10\t0\tb.rs\n";
    let stats = GitManager::parse_numstat(out);
    assert_eq!(
        stats,
        vec![
            ("src/a.rs".to_string(), 3, 1),
            ("image.png".to_string(), 0, 0),
            ("b.rs".to_string(), 10, 0)
        ]
    );
}

#[test]
fn output_lines_split() {
    assert_eq!(GitManager::parse_lines("a\r\nb\n\nc"), vec!["a", "b", "", "c"]);
    assert!(GitManager::parse_lines("").is_empty());
    assert_eq!(GitManager::parse_lines("x\n"), vec!["x"]);
}
