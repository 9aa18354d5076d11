use git_ai::config::ConfigManager;
use git_ai::hook::{hook_status, install_step, HookStatus, InstallStep};
use git_ai::types::get_provider_presets;
use git_ai::hook::{
    backup_path, generate_hook_script_bash, generate_hook_script_windows, global_hook_path,
    hook_action, is_own_hook, local_hook_path, HookAction,
};
use git_ai::prompt::{get_release_notes_system_prompt, get_report_system_prompt, PromptTemplates, ENGLISH_PROMPT};
use git_ai::report::{days_scope, plan_report, range_scope, report_user_prompt, ReportRange};
use git_ai::review::{
    blank, choice_from_index, render_messages, resolve_editor, unique_paths, Choice, ReviewAction,
    ReviewEvent, ReviewState,
};
use git_ai::error::GitAiError;

#[test]
fn auto_accept_commits_first_candidate() {
    let (state, action) = ReviewState::start(vec!["feat: add login".to_string()], true);
    assert!(matches!(state, ReviewState::Committed(ref m) if m == "feat: add login"));
    assert!(matches!(action, ReviewAction::Commit(ref m) if m == "feat: add login"));
}

#[test]
fn empty_edit_cancels() {
    let (state, action) = ReviewState::start(vec!["fix: typo".to_string()], false);
    assert!(matches!(action, ReviewAction::ShowOptions));
    let (state, action) = state.step(ReviewEvent::Chose(Choice::Edit));
    assert!(matches!(action, ReviewAction::OpenEditor(ref m) if m == "fix: typo"));
    let (state, action) = state.step(ReviewEvent::EditorClosed(Some(String::new())));
    assert!(matches!(state, ReviewState::Cancelled));
    assert!(matches!(action, ReviewAction::Cancel));
    assert!(state.is_terminal());
}

#[test]
fn whitespace_edit_and_failed_editor_cancel() {
    let (s, _) = ReviewState::start(vec!["a".to_string()], false);
    let (s, _) = s.step(ReviewEvent::Chose(Choice::Edit));
    let (s, _) = s.step(ReviewEvent::EditorClosed(Some(" \n\t".to_string())));
    assert!(matches!(s, ReviewState::Cancelled));
    let (s, _) = ReviewState::start(vec!["a".to_string()], false);
    let (s, _) = s.step(ReviewEvent::Chose(Choice::Edit));
    let (s, _) = s.step(ReviewEvent::EditorClosed(None));
    assert!(matches!(s, ReviewState::Cancelled));
}

#[test]
fn edited_text_is_committed() {
    let (s, _) = ReviewState::start(vec!["a".to_string()], false);
    let (s, _) = s.step(ReviewEvent::Chose(Choice::Edit));
    let (s, a) = s.step(ReviewEvent::EditorClosed(Some("fix: better".to_string())));
    assert!(matches!(s, ReviewState::Committed(ref m) if m == "fix: better"));
    assert!(matches!(a, ReviewAction::Commit(ref m) if m == "fix: better"));
}

#[test]
fn regenerate_returns_to_generated() {
    let (s, _) = ReviewState::start(vec!["one".to_string()], false);
    let (s, a) = s.step(ReviewEvent::Chose(Choice::Regenerate));
    assert!(matches!(a, ReviewAction::Regenerate));
    assert!(!s.is_terminal());
    let (s, a) = s.step(ReviewEvent::Regenerated(vec!["two".to_string(), "three".to_string()]));
    assert!(matches!(a, ReviewAction::ShowOptions));
    let (s, a) = s.step(ReviewEvent::Chose(Choice::Commit));
    assert!(matches!(s, ReviewState::Committed(ref m) if m == "two"));
    assert!(matches!(a, ReviewAction::Commit(ref m) if m == "two"));
}

#[test]
fn cancel_is_terminal() {
    let (s, _) = ReviewState::start(vec!["one".to_string()], false);
    let (s, a) = s.step(ReviewEvent::Chose(Choice::Cancel));
    assert!(matches!(s, ReviewState::Cancelled));
    assert!(matches!(a, ReviewAction::Cancel));
}

#[test]
fn menu_and_editor_helpers() {
    assert_eq!(choice_from_index(0), Some(Choice::Commit));
    assert_eq!(choice_from_index(3), Some(Choice::Cancel));
    assert_eq!(choice_from_index(4), None);
    assert_eq!(resolve_editor(Some("nano".to_string()), Some("code".to_string()), false), "nano");
    assert_eq!(resolve_editor(None, Some("code".to_string()), false), "code");
    assert_eq!(resolve_editor(None, None, true), "notepad");
    assert_eq!(resolve_editor(None, None, false), "vi");
    assert!(blank(" \t\n"));
    assert!(!blank(" x "));
}

#[test]
fn staged_paths_keep_first_occurrence() {
    let paths = vec!["b".to_string(), "a".to_string(), "b".to_string(), "c".to_string(), "a".to_string()];
    assert_eq!(unique_paths(paths), vec!["b".to_string(), "a".to_string(), "c".to_string()]);
}

#[test]
fn message_rendering() {
    let ms = vec!["one".to_string(), "two".to_string()];
    assert_eq!(render_messages(&ms, false), "one\n---END---\ntwo\n");
    assert_eq!(render_messages(&ms, true), "one\ntwo\n");
    assert_eq!(render_messages(&[], false), "");
}

#[test]
fn system_prompt_selection() {
    assert_eq!(PromptTemplates::get_system_prompt("zh", "deepseek", Some("custom")), "custom");
    assert_eq!(PromptTemplates::get_system_prompt("en", "openai", None), ENGLISH_PROMPT);
    assert!(PromptTemplates::get_system_prompt("en", "deepseek", None).ends_with("not just the mechanics."));
    assert!(PromptTemplates::get_system_prompt("zh", "openai", None).starts_with("你是一个专业的"));
    assert!(get_release_notes_system_prompt("en").starts_with("You are a professional release-notes generator."));
    assert!(get_report_system_prompt("zh").starts_with("你是一个专业的 Git 提交报告生成器"));
}

#[test]
fn user_prompt_layout() {
    let commits: Vec<String> = (1..=7).map(|i| format!("c{}", i)).collect();
    let p = PromptTemplates::get_user_prompt("+x", Some("main"), Some(&commits));
    assert_eq!(
        p,
        "Generate a commit message for the following changes:\n\n```diff\n+x\n```\n\nBranch: main\n\nRecent commits:\n- c1\n- c2\n- c3\n- c4\n- c5\n"
    );
    let p = PromptTemplates::get_user_prompt("d", None, Some(&[]));
    assert_eq!(p, "Generate a commit message for the following changes:\n\n```diff\nd\n```");
}

#[test]
fn hook_helpers() {
    assert!(generate_hook_script_bash().starts_with("#!/bin/bash\n# Git hook for git-ai-cli"));
    let w = generate_hook_script_windows();
    assert!(w.starts_with("@echo off\r\n"));
    assert!(w.ends_with("exit /b 0\r\n"));
    assert!(is_own_hook(&generate_hook_script_bash()));
    assert!(!is_own_hook("#!/bin/sh\necho hi"));
    assert_eq!(hook_action("status").ok(), Some(HookAction::Status));
    assert!(matches!(hook_action("bogus"), Err(GitAiError::InvalidArgument(ref m)) if m == "Unknown hook action: bogus"));
    assert_eq!(backup_path(".git/hooks/prepare-commit-msg"), ".git/hooks/prepare-commit-msg.original");
    assert_eq!(local_hook_path(".git".to_string()), ".git/hooks/prepare-commit-msg");
    assert_eq!(
        global_hook_path(Some("/hooks".to_string()), None).ok().unwrap(),
        "/hooks/prepare-commit-msg"
    );
    assert_eq!(
        global_hook_path(Some(String::new()), Some("/cfg".to_string())).ok().unwrap(),
        "/cfg/git-ai-cli/hooks/prepare-commit-msg"
    );
    assert!(global_hook_path(None, None).is_err());
}

#[test]
fn report_options() {
    assert!(matches!(
        plan_report(7, true, Some("v1".to_string()), None),
        Err(GitAiError::InvalidArgument(ref m)) if m == "--from-last-tag cannot be used together with --from-tag"
    ));
    assert!(matches!(
        plan_report(7, false, None, Some("main".to_string())),
        Err(GitAiError::InvalidArgument(ref m)) if m == "--to-ref requires --from-last-tag or --from-tag"
    ));
    assert!(matches!(plan_report(7, false, None, None), Ok(ReportRange::Days(7))));
    assert!(matches!(plan_report(7, true, None, None), Ok(ReportRange::LatestTag { ref to }) if to == "HEAD"));
    assert!(matches!(
        plan_report(7, false, Some("v1".to_string()), Some("v2".to_string())),
        Ok(ReportRange::FromTag { ref from, ref to }) if from == "v1" && to == "v2"
    ));
    assert_eq!(range_scope("v1", "HEAD"), "v1..HEAD");
    assert_eq!(days_scope(14), "last 14 days");
    let commits = vec!["a1 x".to_string(), "b2 y".to_string()];
    assert_eq!(
        report_user_prompt(false, "last 7 days", &commits),
        "Generate a structured report for the following commits:\n\na1 x\nb2 y"
    );
    assert!(report_user_prompt(true, "v1..HEAD", &commits).starts_with("Current service: git-ai-cli (Rust 2.x).\nCommit range: v1..HEAD\n\n"));
}

#[test]
fn hook_install_and_status_decisions() {
    assert_eq!(install_step(None), InstallStep::Write);
    assert_eq!(install_step(Some("#!/bin/sh\n# git-ai hook")), InstallStep::AlreadyInstalled);
    assert_eq!(install_step(Some("#!/bin/sh\nlint")), InstallStep::BackUpAndWrite);
    assert_eq!(hook_status(None), HookStatus::Missing);
    assert_eq!(hook_status(Some("git-ai msg")), HookStatus::Active);
    assert_eq!(hook_status(Some("other")), HookStatus::Foreign);
}

#[test]
fn wizard_config_from_answers() {
    let presets = get_provider_presets();
    let (name, ollama) = presets.iter().find(|(n, _)| n == "ollama").unwrap();
    let c = ConfigManager::wizard_config(name.clone(), ollama, "ignored".to_string(), "llama2".to_string(), true, None, false);
    assert_eq!(c.provider, "ollama");
    assert_eq!(c.api_key, "");
    assert_eq!(c.base_url, "http://localhost:11434/v1");
    assert_eq!(c.locale, "zh");
    assert_eq!(c.enable_footer, Some(false));
    let (name, ds) = &presets[0];
    let c = ConfigManager::wizard_config(name.clone(), ds, "key".to_string(), "m".to_string(), false, Some("p".to_string()), true);
    assert_eq!(c.api_key, "key");
    assert_eq!(c.locale, "en");
    assert_eq!(c.custom_prompt.as_deref(), Some("p"));
}

#[test]
fn empty_regenerated_set_returns_to_generated() {
    let (s, _) = ReviewState::start(vec!["one".to_string()], false);
    let (s, _) = s.step(ReviewEvent::Chose(Choice::Regenerate));
    let (s, a) = s.step(ReviewEvent::Regenerated(vec![]));
    assert!(matches!(s, ReviewState::Generated(ref ms) if ms.is_empty()));
    assert!(matches!(a, ReviewAction::ShowOptions));
    assert!(!s.can_choose(Choice::Commit));
    assert!(!s.can_choose(Choice::Edit));
    assert!(s.can_choose(Choice::Regenerate));
    assert!(s.can_choose(Choice::Cancel));
    let (s, _) = s.step(ReviewEvent::Chose(Choice::Regenerate));
    let (s, _) = s.step(ReviewEvent::Regenerated(vec!["two".to_string()]));
    assert!(s.can_choose(Choice::Commit));
}
