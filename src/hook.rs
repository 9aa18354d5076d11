use vstd::prelude::*;
use crate::config::{join_path, path_join};
use crate::error::GitAiError;
use crate::text::{contains, contains_seq, push_str, same_text};

verus! {

/// The prepare-commit-msg hook for Unix shells.
pub const BASH_HOOK: &'static str = r#"#!/bin/bash
# Git hook for git-ai-cli
# This hook automatically generates commit messages using AI

# Skip if disabled
if [ "$GIT_AI_DISABLED" = "1" ]; then
    exit 0
fi

# Skip if already running (recursion guard)
if [ "$GIT_AI_RUNNING" = "1" ]; then
    exit 0
fi

# Skip for merge commits
if grep -q "^Merge " "$1"; then
    exit 0
fi

# Skip for squash commits
if grep -q "^# This is a combination of" "$1"; then
    exit 0
fi

# Skip for amend commits
if grep -q "^# Please enter the commit message for your changes" "$1"; then
    exit 0
fi

# Skip if message already exists
if [ -s "$1" ] && ! grep -q "^# Please enter the commit message" "$1"; then
    exit 0
fi

# Generate message
export GIT_AI_RUNNING=1
MESSAGE=$(git-ai msg --quiet 2>/dev/null)

if [ -n "$MESSAGE" ]; then
    # Prepend generated message to commit file
    {
        echo "$MESSAGE"
        echo ""
        cat "$1"
    } > "$1.tmp"
    mv "$1.tmp" "$1"
fi

exit 0
"#;

/// The prepare-commit-msg hook for the Windows command interpreter.
pub const WINDOWS_HOOK: &'static str = "@echo off\r\nREM Git hook for git-ai-cli\r\nREM This hook automatically generates commit messages using AI\r\n\r\nREM Skip if disabled\r\nif \"%GIT_AI_DISABLED%\"==\"1\" exit /b 0\r\n\r\nREM Skip if already running (recursion guard)\r\nif \"%GIT_AI_RUNNING%\"==\"1\" exit /b 0\r\n\r\nREM Skip for merge commits\r\nfindstr /B /C:\"Merge \" \"%~1\" >nul 2>&1\r\nif %errorlevel%==0 exit /b 0\r\n\r\nREM Skip for squash commits\r\nfindstr /B \"# This is a combination\" \"%~1\" >nul 2>&1\r\nif %errorlevel%==0 exit /b 0\r\n\r\nREM Skip for amend commits\r\nfindstr /B \"# Please enter the commit message\" \"%~1\" >nul 2>&1\r\nif %errorlevel%==0 exit /b 0\r\n\r\nREM Check if message already exists\r\nfor %%A in (\"%~1\") do set size=%%~zA\r\nif %size% gtr 0 (\r\n    findstr /B \"# Please enter the commit message\" \"%~1\" >nul 2>&1\r\n    if %errorlevel% neq 0 exit /b 0\r\n)\r\n\r\nREM Generate message\r\nset GIT_AI_RUNNING=1\r\nfor /f \"delims=\" %%i in ('git-ai msg --quiet 2^>nul') do set MESSAGE=%%i\r\n\r\nif not \"%MESSAGE%\"==\"\" (\r\n    REM Prepend generated message to commit file\r\n    echo %MESSAGE%> \"%~1.tmp\"\r\n    echo.>> \"%~1.tmp\"\r\n    type \"%~1\" >> \"%~1.tmp\"\r\n    move /y \"%~1.tmp\" \"%~1\" >nul\r\n)\r\n\r\nexit /b 0\r\n";

/// What the hook command is asked to do.
#[derive(Debug, Clone, Copy, PartialEq, Eq)]
pub enum HookAction {
    Install,
    Remove,
    Status,
}

/// The file name of the hook inside a hooks directory.
pub open spec fn hook_file() -> Seq<char> {
    "prepare-commit-msg"@
}

/// The hook script for the platform.
pub fn generate_hook_script_bash() -> (r: String)
    ensures
        r@ == BASH_HOOK@,
{
    BASH_HOOK.to_owned()
}

pub fn generate_hook_script_windows() -> (r: String)
    ensures
        r@ == WINDOWS_HOOK@,
{
    WINDOWS_HOOK.to_owned()
}

/// The action named on the command line.
pub fn hook_action(action: &str) -> (r: Result<HookAction, GitAiError>)
    ensures
        action@ == "install"@ ==> r == Ok::<HookAction, GitAiError>(HookAction::Install),
        action@ == "remove"@ ==> r == Ok::<HookAction, GitAiError>(HookAction::Remove),
        action@ == "status"@ ==> r == Ok::<HookAction, GitAiError>(HookAction::Status),
        action@ != "install"@ && action@ != "remove"@ && action@ != "status"@ ==> (r matches Err(
            GitAiError::InvalidArgument(m),
        ) && m@ == "Unknown hook action: "@ + action@),
{
    proof {
        reveal_strlit("install");
        reveal_strlit("remove");
        reveal_strlit("status");
        assert("install"@.len() == 7 && "remove"@.len() == 6 && "status"@.len() == 6);
        assert("remove"@[0] == 'r' && "status"@[0] == 's');
    }
    if same_text(action, "install") {
        Ok(HookAction::Install)
    } else if same_text(action, "remove") {
        Ok(HookAction::Remove)
    } else if same_text(action, "status") {
        Ok(HookAction::Status)
    } else {
        let mut m = String::new();
        push_str(&mut m, "Unknown hook action: ");
        push_str(&mut m, action);
        Err(GitAiError::InvalidArgument(m))
    }
}

/// Whether a hook file is one that this tool installed.
pub fn is_own_hook(content: &str) -> (r: bool)
    ensures
        r == contains_seq(content@, "git-ai"@),
{
    contains(content, "git-ai")
}

/// Where an existing hook is kept while this one is installed.
pub fn backup_path(hook_path: &str) -> (r: String)
    ensures
        r@ == hook_path@ + ".original"@,
{
    let mut r = String::new();
    push_str(&mut r, hook_path);
    push_str(&mut r, ".original");
    r
}

/// The hook of the repository whose git directory is `git_dir`.
pub fn local_hook_path(git_dir: String) -> (r: String)
    ensures
        r@ == path_join(path_join(git_dir@, "hooks"@), hook_file()),
{
    join_path(join_path(git_dir, "hooks"), "prepare-commit-msg")
}

/// The global hook: in the configured hooks directory when there is one, else under the
/// user's configuration directory.
pub fn global_hook_path(hooks_dir: Option<String>, config_dir: Option<String>) -> (r: Result<
    String,
    GitAiError,
>)
    ensures
        hooks_dir is Some && hooks_dir->Some_0@.len() > 0 ==> (r is Ok && r->Ok_0@ == path_join(
            hooks_dir->Some_0@,
            hook_file(),
        )),
        !(hooks_dir is Some && hooks_dir->Some_0@.len() > 0) && config_dir is None ==> (r matches Err(
            GitAiError::Config(m),
        ) && m@ == "Cannot determine config directory"@),
        !(hooks_dir is Some && hooks_dir->Some_0@.len() > 0) && config_dir is Some ==> (r is Ok
            && r->Ok_0@ == path_join(
            path_join(path_join(config_dir->Some_0@, "git-ai-cli"@), "hooks"@),
            hook_file(),
        )),
{
    if let Some(h) = hooks_dir {
        if !h.as_str().is_empty() {
            return Ok(join_path(h, "prepare-commit-msg"));
        }
    }
    match config_dir {
        None => Err(GitAiError::Config("Cannot determine config directory".to_owned())),
        Some(d) => Ok(
            join_path(join_path(join_path(d, "git-ai-cli"), "hooks"), "prepare-commit-msg"),
        ),
    }
}

/// What installing the hook has to do, given what the hook file holds now.
#[derive(Debug, Clone, Copy, PartialEq, Eq)]
pub enum InstallStep {
    /// Our hook is there already.
    AlreadyInstalled,
    /// Another hook is there: keep it under the backup path, then write ours.
    BackUpAndWrite,
    /// No hook is there: write ours.
    Write,
}

/// What the hook status reports.
#[derive(Debug, Clone, Copy, PartialEq, Eq)]
pub enum HookStatus {
    Active,
    Foreign,
    Missing,
}

/// The install step for a hook file with the given content, if it exists.
pub fn install_step(existing: Option<&str>) -> (r: InstallStep)
    ensures
        existing is None ==> r == InstallStep::Write,
        existing is Some && contains_seq(existing->Some_0@, "git-ai"@) ==> r
            == InstallStep::AlreadyInstalled,
        existing is Some && !contains_seq(existing->Some_0@, "git-ai"@) ==> r
            == InstallStep::BackUpAndWrite,
{
    match existing {
        None => InstallStep::Write,
        Some(content) => if is_own_hook(content) {
            InstallStep::AlreadyInstalled
        } else {
            InstallStep::BackUpAndWrite
        },
    }
}

/// The status of a hook file with the given content, if it exists.
pub fn hook_status(existing: Option<&str>) -> (r: HookStatus)
    ensures
        existing is None ==> r == HookStatus::Missing,
        existing is Some && contains_seq(existing->Some_0@, "git-ai"@) ==> r == HookStatus::Active,
        existing is Some && !contains_seq(existing->Some_0@, "git-ai"@) ==> r == HookStatus::Foreign,
{
    match existing {
        None => HookStatus::Missing,
        Some(content) => if is_own_hook(content) {
            HookStatus::Active
        } else {
            HookStatus::Foreign
        },
    }
}

} // verus!
