use vstd::prelude::*;
use crate::text::{push_str, same_text, views};

verus! {

/// Commit-message rules in English, with the emphasis that suits the deepseek models.
pub const ENGLISH_DEEPSEEK_PROMPT: &'static str = r#"You are an expert git commit message generator. Generate clear, concise commit messages following Conventional Commits format.

Rules:
1. Use format: <type>(<scope>): <subject>
2. Types: feat, fix, docs, style, refactor, perf, test, chore
3. Subject: imperative mood, lowercase, no period
4. Keep subject under 50 characters
5. Add body if needed (wrapped at 72 chars)
6. Add footer for breaking changes

Focus on the intent and impact of changes, not just the mechanics."#;

/// Commit-message rules in English.
pub const ENGLISH_PROMPT: &'static str = r#"You are an expert git commit message generator. Generate clear, concise commit messages following Conventional Commits format.

Rules:
1. Use format: <type>(<scope>): <subject>
2. Types: feat, fix, docs, style, refactor, perf, test, chore
3. Subject: imperative mood, lowercase, no period
4. Keep subject under 50 characters
5. Add body if needed (wrapped at 72 chars)
6. Add footer for breaking changes"#;

/// Commit-message rules in Chinese, with the emphasis that suits the deepseek models.
pub const CHINESE_DEEPSEEK_PROMPT: &'static str = r#"你是一个专业的 Git 提交信息生成器。生成清晰、简洁的提交信息，遵循 Conventional Commits 格式。

规则：
1. 格式：<type>(<scope>): <subject>
2. 类型：feat（功能）、fix（修复）、docs（文档）、style（样式）、refactor（重构）、perf（性能）、test（测试）、chore（杂务）
3. 主题：使用祈使语气，小写，无句号
4. 主题长度不超过 50 个字符
5. 如需要可添加正文（每行 72 字符）
6. 破坏性变更需添加页脚

重点关注变更的意图和影响，而不仅仅是机制。"#;

/// Commit-message rules in Chinese.
pub const CHINESE_PROMPT: &'static str = r#"你是一个专业的 Git 提交信息生成器。生成清晰、简洁的提交信息，遵循 Conventional Commits 格式。

规则：
1. 格式：<type>(<scope>): <subject>
2. 类型：feat（功能）、fix（修复）、docs（文档）、style（样式）、refactor（重构）、perf（性能）、test（测试）、chore（杂务）
3. 主题：使用祈使语气，小写，无句号
4. 主题长度不超过 50 个字符
5. 如需要可添加正文（每行 72 字符）
6. 破坏性变更需添加页脚"#;

/// Release-note instructions in Chinese.
pub const CHINESE_RELEASE_NOTES_PROMPT: &'static str = r#"你是一个专业的软件版本发布说明生成器。请根据提交记录输出清晰、可直接发布的功能描述。

请按以下结构输出：

## 📦 版本概览
- 变更范围：<from..to>
- 总提交数：X
- 发布定位：一句话说明本次版本目标

## ✨ 功能更新
- 按业务价值总结功能能力，不要逐条抄提交信息

## 🛠 稳定性与工程改进
- 包括修复、CI/CD、性能、构建链路优化

## ⚠️ 升级影响（当前服务）
- 说明可能影响使用方的行为变化
- 给出迁移/回滚建议（如有）

写作要求：
1) 以“对当前服务可感知的能力变化”为核心。
2) 避免泛泛而谈，保持专业、简洁、可读。
3) 不要编造未在提交中出现的事实。"#;

/// Release-note instructions in English.
pub const ENGLISH_RELEASE_NOTES_PROMPT: &'static str = r#"You are a professional release-notes generator. Based on the commit list, produce concise and publish-ready release notes.

Use this structure:

## 📦 Release Overview
- Range: <from..to>
- Total commits: X
- Release intent: one sentence about the goal of this release

## ✨ Functional Updates
- Summarize user-facing capabilities, not raw commit-by-commit rewrites

## 🛠 Stability and Engineering
- Include fixes, CI/CD updates, performance and build-chain improvements

## ⚠️ Upgrade Impact (Current Service)
- Describe behavior changes that may affect users
- Provide migration/rollback hints when relevant

Requirements:
1) Focus on service-level impact.
2) Keep it factual, concise, and easy to scan.
3) Do not invent facts beyond the commit list."#;

/// Commit-report instructions in Chinese.
pub const CHINESE_REPORT_PROMPT: &'static str = r#"你是一个专业的 Git 提交报告生成器。根据提供的提交信息生成结构化的周报或日报。

请按以下格式生成报告：

## 📋 报告摘要
- 总提交数：X
- 主要功能：列出主要功能
- 修复的问题：列出修复的问题
- 其他改进：列出其他改进

## ✨ 新功能
- 功能1
- 功能2

## 🐛 Bug 修复
- 修复1
- 修复2

## 🔧 改进和优化
- 改进1
- 改进2

## 📚 文档和其他
- 项目1
- 项目2

请确保报告清晰、专业且易于理解。"#;

/// Commit-report instructions in English.
pub const ENGLISH_REPORT_PROMPT: &'static str = r#"You are a professional Git commit report generator. Generate a structured weekly or daily report based on the provided commits.

Please generate the report in the following format:

## 📋 Report Summary
- Total Commits: X
- Key Features: List main features
- Bug Fixes: List bug fixes
- Other Improvements: List other improvements

## ✨ New Features
- Feature 1
- Feature 2

## 🐛 Bug Fixes
- Fix 1
- Fix 2

## 🔧 Improvements and Optimizations
- Improvement 1
- Improvement 2

## 📚 Documentation and Other
- Item 1
- Item 2

Ensure the report is clear, professional, and easy to understand."#;

/// Builds the prompts sent with a diff.
pub struct PromptTemplates;

pub open spec fn english_prompt(provider: Seq<char>) -> Seq<char> {
    if provider == "deepseek"@ {
        ENGLISH_DEEPSEEK_PROMPT@
    } else {
        ENGLISH_PROMPT@
    }
}

pub open spec fn chinese_prompt(provider: Seq<char>) -> Seq<char> {
    if provider == "deepseek"@ {
        CHINESE_DEEPSEEK_PROMPT@
    } else {
        CHINESE_PROMPT@
    }
}

/// The system prompt: a custom one verbatim, else the template for the locale and provider.
pub open spec fn system_prompt(locale: Seq<char>, provider: Seq<char>, custom: Option<Seq<char>>) -> Seq<
    char,
> {
    match custom {
        Some(c) => c,
        None => if locale == "zh"@ {
            chinese_prompt(provider)
        } else {
            english_prompt(provider)
        },
    }
}

/// One line per commit summary.
pub open spec fn commit_lines(commits: Seq<Seq<char>>) -> Seq<char>
    decreases commits.len(),
{
    if commits.len() == 0 {
        Seq::empty()
    } else {
        commit_lines(commits.drop_last()) + "- "@ + commits.last() + "\n"@
    }
}

/// The user prompt: the diff fenced as a code block, then the branch, then at most five
/// recent commits.
pub open spec fn user_prompt(
    diff: Seq<char>,
    branch: Option<Seq<char>>,
    commits: Option<Seq<Seq<char>>>,
) -> Seq<char> {
    let head = "Generate a commit message for the following changes:\n\n```diff\n"@ + diff
        + "\n```"@;
    let with_branch = match branch {
        Some(b) => head + "\n\nBranch: "@ + b,
        None => head,
    };
    match commits {
        Some(cs) => if cs.len() > 0 {
            with_branch + "\n\nRecent commits:\n"@ + commit_lines(
                cs.subrange(0, if cs.len() < 5 { cs.len() as int } else { 5 }),
            )
        } else {
            with_branch
        },
        None => with_branch,
    }
}

pub open spec fn opt_str_view(o: Option<&str>) -> Option<Seq<char>> {
    match o {
        Some(s) => Some(s@),
        None => None,
    }
}

pub open spec fn opt_slice_view(o: Option<&[String]>) -> Option<Seq<Seq<char>>> {
    match o {
        Some(s) => Some(views(s@)),
        None => None,
    }
}

impl PromptTemplates {
    /// The system prompt for `locale` and `provider`, or the custom one when given.
    pub fn get_system_prompt(locale: &str, provider: &str, custom_prompt: Option<&str>) -> (r:
        String)
        ensures
            r@ == system_prompt(locale@, provider@, opt_str_view(custom_prompt)),
    {
        if let Some(custom) = custom_prompt {
            return custom.to_owned();
        }
        if same_text(locale, "zh") {
            Self::get_chinese_prompt(provider)
        } else {
            Self::get_english_prompt(provider)
        }
    }

    fn get_english_prompt(provider: &str) -> (r: String)
        ensures
            r@ == english_prompt(provider@),
    {
        if same_text(provider, "deepseek") {
            ENGLISH_DEEPSEEK_PROMPT.to_owned()
        } else {
            ENGLISH_PROMPT.to_owned()
        }
    }

    fn get_chinese_prompt(provider: &str) -> (r: String)
        ensures
            r@ == chinese_prompt(provider@),
    {
        if same_text(provider, "deepseek") {
            CHINESE_DEEPSEEK_PROMPT.to_owned()
        } else {
            CHINESE_PROMPT.to_owned()
        }
    }

    /// The user prompt for a diff, with the branch and recent commits when known.
    pub fn get_user_prompt(
        diff: &str,
        branch_name: Option<&str>,
        recent_commits: Option<&[String]>,
    ) -> (r: String)
        ensures
            r@ == user_prompt(diff@, opt_str_view(branch_name), opt_slice_view(recent_commits)),
    {
        let mut prompt = String::new();
        push_str(&mut prompt, "Generate a commit message for the following changes:\n\n```diff\n");
        push_str(&mut prompt, diff);
        push_str(&mut prompt, "\n```");
        let ghost head = prompt@;
        assert(head =~= "Generate a commit message for the following changes:\n\n```diff\n"@
            + diff@ + "\n```"@);
        if let Some(branch) = branch_name {
            push_str(&mut prompt, "\n\nBranch: ");
            push_str(&mut prompt, branch);
            assert(prompt@ =~= head + "\n\nBranch: "@ + branch@);
        }
        if let Some(commits) = recent_commits {
            if commits.len() > 0 {
                let ghost cs = views(commits@);
                push_str(&mut prompt, "\n\nRecent commits:\n");
                let ghost start = prompt@;
                let n: usize = if commits.len() < 5 {
                    commits.len()
                } else {
                    5
                };
                let mut i: usize = 0;
                while i < n
                    invariant
                        cs == views(commits@),
                        n <= commits@.len(),
                        i <= n,
                        prompt@ == start + commit_lines(cs.subrange(0, i as int)),
                    decreases n - i,
                {
                    push_str(&mut prompt, "- ");
                    push_str(&mut prompt, commits[i].as_str());
                    push_str(&mut prompt, "\n");
                    i += 1;
                    assert(cs.subrange(0, i as int).drop_last() =~= cs.subrange(0, i - 1));
                    assert(prompt@ =~= start + commit_lines(cs.subrange(0, i as int)));
                }
            }
        }
        prompt
    }
}

/// The release-note system prompt for `locale`.
pub open spec fn release_notes_prompt(locale: Seq<char>) -> Seq<char> {
    if locale == "zh"@ {
        CHINESE_RELEASE_NOTES_PROMPT@
    } else {
        ENGLISH_RELEASE_NOTES_PROMPT@
    }
}

/// The commit-report system prompt for `locale`.
pub open spec fn report_prompt(locale: Seq<char>) -> Seq<char> {
    if locale == "zh"@ {
        CHINESE_REPORT_PROMPT@
    } else {
        ENGLISH_REPORT_PROMPT@
    }
}

pub fn get_release_notes_system_prompt(locale: &str) -> (r: String)
    ensures
        r@ == release_notes_prompt(locale@),
{
    if same_text(locale, "zh") {
        CHINESE_RELEASE_NOTES_PROMPT.to_owned()
    } else {
        ENGLISH_RELEASE_NOTES_PROMPT.to_owned()
    }
}

pub fn get_report_system_prompt(locale: &str) -> (r: String)
    ensures
        r@ == report_prompt(locale@),
{
    if same_text(locale, "zh") {
        CHINESE_REPORT_PROMPT.to_owned()
    } else {
        ENGLISH_REPORT_PROMPT.to_owned()
    }
}

} // verus!
