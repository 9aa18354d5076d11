use vstd::prelude::*;
use crate::error::GitAiError;
use crate::text::{decimal, join, join_with, push_decimal, push_str, views};

verus! {

/// Which commits a report covers.
#[derive(Debug, Clone)]
pub enum ReportRange {
    /// The commits of the last days.
    Days(usize),
    /// From the latest tag to the target.
    LatestTag { to: String },
    /// From the given tag or ref to the target.
    FromTag { from: String, to: String },
}

pub open spec fn target_of(to_ref: Option<String>) -> Seq<char> {
    match to_ref {
        Some(t) => t@,
        None => "HEAD"@,
    }
}

/// The range that the report options select, or why they do not fit together.
pub fn plan_report(days: usize, from_last_tag: bool, from_tag: Option<String>, to_ref: Option<
    String,
>) -> (r: Result<ReportRange, GitAiError>)
    ensures
        from_last_tag && from_tag is Some ==> (r matches Err(GitAiError::InvalidArgument(m)) && m@
            == "--from-last-tag cannot be used together with --from-tag"@),
        to_ref is Some && !from_last_tag && from_tag is None ==> (r matches Err(
            GitAiError::InvalidArgument(m),
        ) && m@ == "--to-ref requires --from-last-tag or --from-tag"@),
        from_last_tag && from_tag is None ==> (r matches Ok(ReportRange::LatestTag { to }) && to@
            == target_of(to_ref)),
        !from_last_tag && from_tag is Some ==> (r matches Ok(ReportRange::FromTag { from, to })
            && from@ == from_tag->Some_0@ && to@ == target_of(to_ref)),
        !from_last_tag && from_tag is None && to_ref is None ==> (r matches Ok(
            ReportRange::Days(d),
        ) && d == days),
{
    if from_last_tag && from_tag.is_some() {
        return Err(
            GitAiError::InvalidArgument(
                "--from-last-tag cannot be used together with --from-tag".to_owned(),
            ),
        );
    }
    if to_ref.is_some() && !from_last_tag && from_tag.is_none() {
        return Err(
            GitAiError::InvalidArgument("--to-ref requires --from-last-tag or --from-tag".to_owned()),
        );
    }
    let to = match to_ref {
        Some(t) => t,
        None => "HEAD".to_owned(),
    };
    if from_last_tag {
        Ok(ReportRange::LatestTag { to })
    } else {
        match from_tag {
            Some(from) => Ok(ReportRange::FromTag { from, to }),
            None => Ok(ReportRange::Days(days)),
        }
    }
}

/// The error when release notes are asked from the latest tag and there is none.
pub fn no_tag_error() -> (r: GitAiError)
    ensures
        r matches GitAiError::InvalidArgument(m) && m@
            == "No git tag found. Use --from-tag <tag> or fall back to --days."@,
{
    GitAiError::InvalidArgument("No git tag found. Use --from-tag <tag> or fall back to --days.".to_owned())
}

/// The scope of a range of commits.
pub fn range_scope(from: &str, to: &str) -> (r: String)
    ensures
        r@ == from@ + ".."@ + to@,
{
    let mut r = String::new();
    push_str(&mut r, from);
    push_str(&mut r, "..");
    push_str(&mut r, to);
    r
}

/// The scope of a report over recent days.
pub fn days_scope(days: usize) -> (r: String)
    ensures
        r@ == "last "@ + decimal(days as nat) + " days"@,
{
    let mut r = String::new();
    push_str(&mut r, "last ");
    push_decimal(&mut r, days as u64);
    push_str(&mut r, " days");
    r
}

pub open spec fn report_prompt_text(range_mode: bool, scope: Seq<char>, commits: Seq<Seq<char>>) -> Seq<
    char,
> {
    if range_mode {
        "Current service: git-ai-cli (Rust 2.x).\nCommit range: "@ + scope
            + "\n\nPlease generate release notes focused on functional changes and service impact:\n\n"@
            + join_with(commits, "\n"@)
    } else {
        "Generate a structured report for the following commits:\n\n"@ + join_with(commits, "\n"@)
    }
}

/// The user prompt for release notes over a range, or for a report over recent days.
pub fn report_user_prompt(range_mode: bool, scope: &str, commits: &[String]) -> (r: String)
    ensures
        r@ == report_prompt_text(range_mode, scope@, views(commits@)),
{
    let joined = join(commits, commits.len(), "\n");
    assert(views(commits@).subrange(0, commits@.len() as int) =~= views(commits@));
    let mut r = String::new();
    if range_mode {
        push_str(&mut r, "Current service: git-ai-cli (Rust 2.x).\nCommit range: ");
        push_str(&mut r, scope);
        push_str(
            &mut r,
            "\n\nPlease generate release notes focused on functional changes and service impact:\n\n",
        );
    } else {
        push_str(&mut r, "Generate a structured report for the following commits:\n\n");
    }
    push_str(&mut r, joined.as_str());
    r
}

} // verus!
