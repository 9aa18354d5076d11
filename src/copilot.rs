use vstd::prelude::*;
use crate::error::GitAiError;
use crate::text::{
    chars_of, has_prefix, join, join_with, lines, lines_seq, push_str, starts_with, string_of,
    strip_all, trim, trim_chars, trim_seq, trim_start_matches, views,
};

verus! {

/// Impact analysis by an external reviewing tool, which is optional and never blocks the
/// pipeline.
pub struct CopilotCLI;

/// What the reviewing tool said about a change.
#[derive(Debug, Clone)]
pub struct CodeAnalysis {
    pub impact_summary: String,
    pub potential_issues: Vec<String>,
    pub affected_areas: Vec<String>,
    pub test_recommendations: Vec<String>,
}

/// The section of the tool's answer that bullet lines belong to.
#[derive(Debug, Clone, Copy)]
pub enum Section {
    Other,
    Impact,
    Risks,
    Affected,
    Tests,
}

/// What has been read of the answer so far.
pub struct AnalysisParts {
    pub section: Section,
    pub impact: Seq<char>,
    pub risks: Seq<Seq<char>>,
    pub affected: Seq<Seq<char>>,
    pub tests: Seq<Seq<char>>,
}

pub open spec fn no_parts() -> AnalysisParts {
    AnalysisParts {
        section: Section::Other,
        impact: Seq::empty(),
        risks: Seq::empty(),
        affected: Seq::empty(),
        tests: Seq::empty(),
    }
}

/// The text of a bullet line: its `- ` and `* ` markers and surrounding white space removed.
pub open spec fn bullet_item(line: Seq<char>) -> Seq<char> {
    trim_seq(strip_all(strip_all(line, "- "@), "* "@))
}

pub open spec fn with_section(a: AnalysisParts, s: Section) -> AnalysisParts {
    AnalysisParts { section: s, impact: a.impact, risks: a.risks, affected: a.affected, tests: a.tests }
}

/// `item` added to the list of the current section, if it has one.
pub open spec fn add_item(a: AnalysisParts, item: Seq<char>) -> AnalysisParts {
    match a.section {
        Section::Risks => AnalysisParts {
            section: a.section,
            impact: a.impact,
            risks: a.risks.push(item),
            affected: a.affected,
            tests: a.tests,
        },
        Section::Affected => AnalysisParts {
            section: a.section,
            impact: a.impact,
            risks: a.risks,
            affected: a.affected.push(item),
            tests: a.tests,
        },
        Section::Tests => AnalysisParts {
            section: a.section,
            impact: a.impact,
            risks: a.risks,
            affected: a.affected,
            tests: a.tests.push(item),
        },
        _ => a,
    }
}

/// Reads one line of the answer.
pub open spec fn analysis_step(a: AnalysisParts, raw: Seq<char>) -> AnalysisParts {
    let line = trim_seq(raw);
    if starts_with(line, "IMPACT:"@) {
        AnalysisParts {
            section: Section::Impact,
            impact: trim_seq(line.subrange(7, line.len() as int)),
            risks: a.risks,
            affected: a.affected,
            tests: a.tests,
        }
    } else if starts_with(line, "RISKS:"@) {
        with_section(a, Section::Risks)
    } else if starts_with(line, "AFFECTED:"@) {
        with_section(a, Section::Affected)
    } else if starts_with(line, "TESTS:"@) {
        with_section(a, Section::Tests)
    } else if starts_with(line, "- "@) || starts_with(line, "* "@) {
        if bullet_item(line).len() > 0 {
            add_item(a, bullet_item(line))
        } else {
            a
        }
    } else {
        a
    }
}

/// Reads the lines from position `i` on.
pub open spec fn analysis_from(a: AnalysisParts, ls: Seq<Seq<char>>, i: int) -> AnalysisParts
    decreases ls.len() - i,
{
    if i < 0 || i >= ls.len() {
        a
    } else {
        analysis_from(analysis_step(a, ls[i]), ls, i + 1)
    }
}

/// The parts read from a whole answer.
pub open spec fn analysis_parts(text: Seq<char>) -> AnalysisParts {
    analysis_from(no_parts(), lines_seq(text), 0)
}

/// The impact summary: the one given after `IMPACT:`, else the first three lines joined.
pub open spec fn impact_summary(text: Seq<char>) -> Seq<char> {
    let ls = lines_seq(text);
    let given = analysis_parts(text).impact;
    if given.len() > 0 {
        given
    } else {
        join_with(ls.subrange(0, if ls.len() < 3 { ls.len() as int } else { 3 }), " "@)
    }
}

/// The prompt that asks the tool for a structured review of `diff`.
pub open spec fn impact_prompt(diff: Seq<char>, files: Seq<Seq<char>>) -> Seq<char> {
    IMPACT_PROMPT_HEAD@ + join_with(files, ", "@) + IMPACT_PROMPT_MIDDLE@ + diff + IMPACT_PROMPT_TAIL@
}

pub const IMPACT_PROMPT_HEAD: &'static str = "You are a code review expert. Analyze the following git diff and provide a structured analysis.\n\nChanged files: ";

pub const IMPACT_PROMPT_MIDDLE: &'static str = "\n\nGit diff:\n";

pub const IMPACT_PROMPT_TAIL: &'static str = "\n\nPlease provide:\n1. IMPACT: A brief summary of what changed and why it matters\n2. RISKS: List potential issues, breaking changes, or bugs this might introduce\n3. AFFECTED: List other files/modules that might be affected by these changes\n4. TESTS: Suggest what should be tested to verify these changes\n\nFormat your response as:\nIMPACT: [summary]\nRISKS:\n- [risk 1]\n- [risk 2]\nAFFECTED:\n- [area 1]\n- [area 2]\nTESTS:\n- [test 1]\n- [test 2]";

fn bullet(line: &Vec<char>) -> (r: Vec<char>)
    ensures
        r@ == bullet_item(line@),
{
    proof {
        reveal_strlit("- ");
        reveal_strlit("* ");
    }
    let a = trim_start_matches(line, "- ");
    let b = trim_start_matches(&a, "* ");
    trim_chars(&b)
}

impl CopilotCLI {
    /// Reads the tool's answer: the summary after `IMPACT:`, and the bullet items under
    /// `RISKS:`, `AFFECTED:` and `TESTS:`; without a summary, the first three lines stand
    /// for it.
    pub fn parse_analysis(text: &str) -> (r: Result<CodeAnalysis, GitAiError>)
        ensures
            r matches Ok(c) && c.impact_summary@ == impact_summary(text@) && views(
                c.potential_issues@,
            ) == analysis_parts(text@).risks && views(c.affected_areas@) == analysis_parts(
                text@,
            ).affected && views(c.test_recommendations@) == analysis_parts(text@).tests,
    {
        let ls = lines(text);
        let ghost lv = views(ls@);
        let mut section = Section::Other;
        let mut impact = String::new();
        let mut risks: Vec<String> = Vec::new();
        let mut affected: Vec<String> = Vec::new();
        let mut tests: Vec<String> = Vec::new();
        let mut i: usize = 0;
        assert(views(risks@) =~= Seq::<Seq<char>>::empty());
        assert(views(affected@) =~= Seq::<Seq<char>>::empty());
        assert(views(tests@) =~= Seq::<Seq<char>>::empty());
        while i < ls.len()
            invariant
                lv == views(ls@),
                lv == lines_seq(text@),
                i <= ls@.len(),
                analysis_from(
                    AnalysisParts {
                        section,
                        impact: impact@,
                        risks: views(risks@),
                        affected: views(affected@),
                        tests: views(tests@),
                    },
                    lv,
                    i as int,
                ) == analysis_parts(text@),
            decreases ls@.len() - i,
        {
            proof {
                reveal_strlit("IMPACT:");
                reveal_strlit("RISKS:");
                reveal_strlit("AFFECTED:");
                reveal_strlit("TESTS:");
                reveal_strlit("- ");
                reveal_strlit("* ");
            }
            let ghost a = AnalysisParts {
                section,
                impact: impact@,
                risks: views(risks@),
                affected: views(affected@),
                tests: views(tests@),
            };
            assert(lv[i as int] == ls@[i as int]@);
            let raw = chars_of(ls[i].as_str());
            let line = trim_chars(&raw);
            let ls_line = string_of(&line);
            if has_prefix(ls_line.as_str(), "IMPACT:") {
                section = Section::Impact;
                let mut rest: Vec<char> = Vec::new();
                crate::text::push_slice(&mut rest, &line, 7, line.len());
                impact = string_of(&trim_chars(&rest));
            } else if has_prefix(ls_line.as_str(), "RISKS:") {
                section = Section::Risks;
            } else if has_prefix(ls_line.as_str(), "AFFECTED:") {
                section = Section::Affected;
            } else if has_prefix(ls_line.as_str(), "TESTS:") {
                section = Section::Tests;
            } else if has_prefix(ls_line.as_str(), "- ") || has_prefix(ls_line.as_str(), "* ") {
                let item = bullet(&line);
                if item.len() > 0 {
                    let s = string_of(&item);
                    match section {
                        Section::Risks => {
                            risks.push(s);
                            assert(views(risks@) =~= a.risks.push(item@));
                        },
                        Section::Affected => {
                            affected.push(s);
                            assert(views(affected@) =~= a.affected.push(item@));
                        },
                        Section::Tests => {
                            tests.push(s);
                            assert(views(tests@) =~= a.tests.push(item@));
                        },
                        _ => {},
                    }
                }
            }
            i += 1;
        }
        if impact.as_str().is_empty() {
            let n: usize = if ls.len() < 3 {
                ls.len()
            } else {
                3
            };
            impact = join(ls.as_slice(), n, " ");
        }
        Ok(
            CodeAnalysis {
                impact_summary: impact,
                potential_issues: risks,
                affected_areas: affected,
                test_recommendations: tests,
            },
        )
    }

    /// The analysis given for an empty diff, which is not sent to the tool.
    pub fn no_changes_analysis() -> (r: CodeAnalysis)
        ensures
            r.impact_summary@ == "No changes detected"@,
            r.potential_issues@.len() == 0,
            r.affected_areas@.len() == 0,
            r.test_recommendations@.len() == 0,
    {
        CodeAnalysis {
            impact_summary: "No changes detected".to_owned(),
            potential_issues: Vec::new(),
            affected_areas: Vec::new(),
            test_recommendations: Vec::new(),
        }
    }

    /// The prompt to send to the tool for `diff`, or `None` when the diff is empty and the
    /// analysis is `no_changes_analysis`.
    pub fn analysis_prompt(diff: &str, staged_files: &[String]) -> (r: Option<String>)
        ensures
            diff@.len() == 0 ==> r is None,
            diff@.len() > 0 ==> (r matches Some(p) && p@ == impact_prompt(diff@, views(staged_files@))),
    {
        if diff.is_empty() {
            return None;
        }
        let files = join(staged_files, staged_files.len(), ", ");
        assert(views(staged_files@).subrange(0, staged_files@.len() as int) =~= views(staged_files@));
        let mut p = String::new();
        push_str(&mut p, IMPACT_PROMPT_HEAD);
        push_str(&mut p, files.as_str());
        push_str(&mut p, IMPACT_PROMPT_MIDDLE);
        push_str(&mut p, diff);
        push_str(&mut p, IMPACT_PROMPT_TAIL);
        Some(p)
    }

    /// A line on whether the tool can be used.
    pub fn get_status_message(available: bool) -> (r: String)
        ensures
            available ==> r@ == "GitHub Copilot CLI available for code analysis"@,
            !available ==> r@ == "GitHub Copilot CLI not available (install: gh auth login)"@,
    {
        if available {
            "GitHub Copilot CLI available for code analysis".to_owned()
        } else {
            "GitHub Copilot CLI not available (install: gh auth login)".to_owned()
        }
    }
}

} // verus!
