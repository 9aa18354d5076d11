use vstd::prelude::*;
use crate::text::push_str;

verus! {

/// Everything that can go wrong in the generation pipeline.
#[derive(Debug, Clone)]
pub enum GitAiError {
    Git(String),
    Config(String),
    Ai(String),
    Io(String),
    Json(String),
    Http(String),
    InvalidArgument(String),
    NotInGitRepo,
    GitNotInstalled,
    NoStagedChanges,
    UserCancelled,
    Other(String),
}

/// The text shown for an error: a fixed heading for its kind, then its detail.
pub open spec fn error_text(e: GitAiError) -> Seq<char> {
    match e {
        GitAiError::Git(d) => "Git error: "@ + d@,
        GitAiError::Config(d) => "Configuration error: "@ + d@,
        GitAiError::Ai(d) => "AI error: "@ + d@,
        GitAiError::Io(d) => "IO error: "@ + d@,
        GitAiError::Json(d) => "JSON error: "@ + d@,
        GitAiError::Http(d) => "HTTP error: "@ + d@,
        GitAiError::InvalidArgument(d) => "Invalid argument: "@ + d@,
        GitAiError::NotInGitRepo => "Not in git repository"@,
        GitAiError::GitNotInstalled => "Git not installed"@,
        GitAiError::NoStagedChanges => "No staged changes"@,
        GitAiError::UserCancelled => "User cancelled operation"@,
        GitAiError::Other(d) => d@,
    }
}

fn headed(head: &str, detail: &String) -> (r: String)
    ensures
        r@ == head@ + detail@,
{
    let mut r = String::new();
    push_str(&mut r, head);
    push_str(&mut r, detail.as_str());
    assert(r@ =~= head@ + detail@);
    r
}

impl GitAiError {
    /// The text shown to the user for this error.
    pub fn message(&self) -> (r: String)
        ensures
            r@ == error_text(*self),
    {
        match self {
            GitAiError::Git(d) => headed("Git error: ", d),
            GitAiError::Config(d) => headed("Configuration error: ", d),
            GitAiError::Ai(d) => headed("AI error: ", d),
            GitAiError::Io(d) => headed("IO error: ", d),
            GitAiError::Json(d) => headed("JSON error: ", d),
            GitAiError::Http(d) => headed("HTTP error: ", d),
            GitAiError::InvalidArgument(d) => headed("Invalid argument: ", d),
            GitAiError::NotInGitRepo => "Not in git repository".to_owned(),
            GitAiError::GitNotInstalled => "Git not installed".to_owned(),
            GitAiError::NoStagedChanges => "No staged changes".to_owned(),
            GitAiError::UserCancelled => "User cancelled operation".to_owned(),
            GitAiError::Other(d) => d.clone(),
        }
    }
}

} // verus!
