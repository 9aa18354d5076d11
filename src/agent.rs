use vstd::prelude::*;
use crate::text::{
    chars_of, contains, contains_seq, decimal, push_decimal, push_str, same_text, starts_with,
    strip_prefix, views,
};
use crate::types::opt_view;

verus! {

/// Light analysis of a diff that enriches the prompt.
pub struct AgentLite;

/// A file with its impact score.
pub open spec fn scored_view(e: (String, u32)) -> (Seq<char>, nat) {
    (e.0@, e.1 as nat)
}

pub open spec fn scores_view(v: Seq<(String, u32)>) -> Seq<(Seq<char>, nat)> {
    v.map_values(|e: (String, u32)| scored_view(e))
}

/// The score of a file: its insertions plus its deletions.
pub open spec fn score_of(e: (String, u32, u32)) -> (Seq<char>, nat) {
    (e.0@, (e.1 + e.2) as nat)
}

/// How many entries at the front of `s`, from `j` on, score at least `k`.
pub open spec fn ge_run(s: Seq<(Seq<char>, nat)>, k: nat, j: int) -> nat
    decreases s.len() - j,
{
    if 0 <= j < s.len() && s[j].1 >= k {
        1 + ge_run(s, k, j + 1)
    } else {
        0
    }
}

/// `x` placed after every entry that scores at least as much, as a stable sort does.
pub open spec fn insert_by_score(s: Seq<(Seq<char>, nat)>, x: (Seq<char>, nat)) -> Seq<
    (Seq<char>, nat),
> {
    s.insert(ge_run(s, x.1, 0) as int, x)
}

/// The entries by descending score; entries with equal scores keep their order.
pub open spec fn sort_by_score(s: Seq<(Seq<char>, nat)>) -> Seq<(Seq<char>, nat)>
    decreases s.len(),
{
    if s.len() == 0 {
        s
    } else {
        insert_by_score(sort_by_score(s.drop_last()), s.last())
    }
}

/// The (at most) five files with the highest scores, highest first.
pub open spec fn top_files(stats: Seq<(String, u32, u32)>) -> Seq<(Seq<char>, nat)> {
    let sorted = sort_by_score(stats.map_values(|e: (String, u32, u32)| score_of(e)));
    sorted.subrange(0, if sorted.len() < 5 { sorted.len() as int } else { 5 })
}

pub proof fn lemma_ge_run_bound(s: Seq<(Seq<char>, nat)>, k: nat, j: int)
    requires
        0 <= j <= s.len(),
    ensures
        j + ge_run(s, k, j) <= s.len(),
    decreases s.len() - j,
{
    if j < s.len() && s[j].1 >= k {
        lemma_ge_run_bound(s, k, j + 1);
    }
}

pub proof fn lemma_sort_len(s: Seq<(Seq<char>, nat)>)
    ensures
        sort_by_score(s).len() == s.len(),
    decreases s.len(),
{
    if s.len() > 0 {
        lemma_sort_len(s.drop_last());
        lemma_ge_run_bound(sort_by_score(s.drop_last()), s.last().1, 0);
    }
}

/// The branch prefixes that name a scope.
pub open spec fn branch_scope(branch: Seq<char>) -> Option<Seq<char>> {
    if starts_with(branch, "feature/"@) {
        Some(branch.subrange(8, branch.len() as int))
    } else if starts_with(branch, "bugfix/"@) {
        Some(branch.subrange(7, branch.len() as int))
    } else if starts_with(branch, "fix/"@) {
        Some(branch.subrange(4, branch.len() as int))
    } else {
        None
    }
}

/// The warnings for changes that may break users, in a fixed order.
pub open spec fn breaking_changes(diff: Seq<char>) -> Seq<Seq<char>> {
    let a: Seq<Seq<char>> = if contains_seq(diff, "-export "@) || contains_seq(diff, "-pub "@) {
        seq!["Removed public API"@]
    } else {
        Seq::empty()
    };
    let b: Seq<Seq<char>> = if contains_seq(diff, "- fn "@) && contains_seq(diff, "+ fn "@) {
        seq!["Function signature changed"@]
    } else {
        Seq::empty()
    };
    let c: Seq<Seq<char>> = if contains_seq(diff, "DROP TABLE"@) || contains_seq(
        diff,
        "ALTER TABLE"@,
    ) {
        seq!["Database schema modified"@]
    } else {
        Seq::empty()
    };
    a + b + c
}

impl AgentLite {
    /// The files with the most inserted and deleted lines, at most five, highest first;
    /// files with equal scores keep their order.
    pub fn analyze_file_importance(stats: &[(String, u32, u32)]) -> (r: Vec<(String, u32)>)
        requires
            forall|i: int| 0 <= i < stats@.len() ==> stats@[i].1 + stats@[i].2 <= u32::MAX,
        ensures
            scores_view(r@) == top_files(stats@),
    {
        let ghost all = stats@.map_values(|e: (String, u32, u32)| score_of(e));
        let mut out: Vec<(String, u32)> = Vec::new();
        let mut i: usize = 0;
        while i < stats.len()
            invariant
                all == stats@.map_values(|e: (String, u32, u32)| score_of(e)),
                forall|k: int| 0 <= k < stats@.len() ==> stats@[k].1 + stats@[k].2 <= u32::MAX,
                i <= stats@.len(),
                scores_view(out@) == sort_by_score(all.subrange(0, i as int)),
            decreases stats@.len() - i,
        {
            let score: u32 = stats[i].1 + stats[i].2;
            let ghost sorted = scores_view(out@);
            let mut j: usize = 0;
            while j < out.len() && out[j].1 >= score
                invariant
                    sorted == scores_view(out@),
                    j <= out@.len(),
                    ge_run(sorted, score as nat, 0) == j + ge_run(sorted, score as nat, j as int),
                decreases out@.len() - j,
            {
                j += 1;
            }
            let ghost x = all[i as int];
            assert(x == (stats@[i as int].0@, score as nat));
            out.insert(j, (stats[i].0.clone(), score));
            assert(all.subrange(0, i + 1).drop_last() =~= all.subrange(0, i as int));
            assert(scores_view(out@) =~= sorted.insert(j as int, x));
            i += 1;
        }
        assert(all.subrange(0, i as int) =~= all);
        proof {
            lemma_sort_len(all);
        }
        let n: usize = if out.len() < 5 {
            out.len()
        } else {
            5
        };
        out.truncate(n);
        assert(scores_view(out@) =~= top_files(stats@));
        out
    }

    /// The scope that a branch name suggests: what follows `feature/`, `bugfix/` or `fix/`.
    pub fn extract_scope_from_branch(branch_name: &str) -> (r: Option<String>)
        ensures
            match r {
                Some(s) => branch_scope(branch_name@) == Some(s@),
                None => branch_scope(branch_name@) is None,
            },
    {
        proof {
            reveal_strlit("feature/");
            reveal_strlit("bugfix/");
            reveal_strlit("fix/");
        }
        if let Some(scope) = strip_prefix(branch_name, "feature/") {
            return Some(scope);
        }
        if let Some(scope) = strip_prefix(branch_name, "bugfix/") {
            return Some(scope);
        }
        if let Some(scope) = strip_prefix(branch_name, "fix/") {
            return Some(scope);
        }
        None
    }

    /// Warnings for removed public items, changed function signatures and schema changes.
    pub fn detect_breaking_changes(diff: &str) -> (r: Vec<String>)
        ensures
            views(r@) == breaking_changes(diff@),
    {
        let mut out: Vec<String> = Vec::new();
        if contains(diff, "-export ") || contains(diff, "-pub ") {
            out.push("Removed public API".to_owned());
        }
        if contains(diff, "- fn ") && contains(diff, "+ fn ") {
            out.push("Function signature changed".to_owned());
        }
        if contains(diff, "DROP TABLE") || contains(diff, "ALTER TABLE") {
            out.push("Database schema modified".to_owned());
        }
        assert(views(out@) =~= breaking_changes(diff@));
        out
    }
}


/// Functions and methods added by a diff: the name in group one.
pub const FUNCTION_PATTERN: &'static str = r"(?:^|\n)\+.*(?:fn|function|def|async fn)\s+(\w+)\s*\(";

/// Classes, structs, interfaces and types added by a diff: the name in group one.
pub const TYPE_PATTERN: &'static str = r"(?:^|\n)\+.*(?:class|struct|interface|type)\s+(\w+)";

/// For each match of the regular expression `pattern` in `text`, in order, what its first
/// group holds (`None` where the group took no part); `None` when the pattern does not
/// compile.
pub uninterp spec fn group_one_matches(pattern: Seq<char>, text: Seq<char>) -> Option<
    Seq<Option<Seq<char>>>,
>;

/// Relies on `regex::Regex::new` and `regex::Regex::captures_iter` with `Captures::get(1)`:
/// what comes back depends on the pattern and the text alone.
#[verifier::external_body]
fn capture_group_one(pattern: &str, text: &str) -> (r: Option<Vec<Option<String>>>)
    ensures
        match r {
            Some(v) => group_one_matches(pattern@, text@) == Some(
                v@.map_values(|o: Option<String>| opt_view(o)),
            ),
            None => group_one_matches(pattern@, text@) is None,
        },
{
    match regex::Regex::new(pattern) {
        Ok(re) => Some(
            re.captures_iter(text).map(|c| c.get(1).map(|m| m.as_str().to_string())).collect(),
        ),
        Err(_) => None,
    }
}

/// The names that took part, in order.
pub open spec fn present(v: Seq<Option<Seq<char>>>) -> Seq<Seq<char>>
    decreases v.len(),
{
    if v.len() == 0 {
        Seq::empty()
    } else {
        let rest = present(v.drop_last());
        match v.last() {
            Some(x) => rest.push(x),
            None => rest,
        }
    }
}

/// The names that `pattern` captures in `text`.
pub open spec fn captured(pattern: Seq<char>, text: Seq<char>) -> Seq<Seq<char>> {
    match group_one_matches(pattern, text) {
        Some(v) => present(v),
        None => Seq::empty(),
    }
}

/// The names that a diff defines: functions first, then types.
pub open spec fn candidate_names(diff: Seq<char>) -> Seq<Seq<char>> {
    captured(FUNCTION_PATTERN@, diff) + captured(TYPE_PATTERN@, diff)
}

/// Lexicographic order on characters from position `i` on, as `Ord` on strings has it.
pub open spec fn lex_from(a: Seq<char>, b: Seq<char>, i: int) -> bool
    decreases a.len() - i,
{
    if i < 0 || i >= a.len() {
        i < b.len()
    } else if i >= b.len() {
        false
    } else if a[i] != b[i] {
        a[i] < b[i]
    } else {
        lex_from(a, b, i + 1)
    }
}

pub open spec fn lex_lt(a: Seq<char>, b: Seq<char>) -> bool {
    lex_from(a, b, 0)
}

/// How many entries of `s`, from `j` on, come before `x`.
pub open spec fn lt_run(s: Seq<Seq<char>>, x: Seq<char>, j: int) -> nat
    decreases s.len() - j,
{
    if 0 <= j < s.len() && lex_lt(s[j], x) {
        1 + lt_run(s, x, j + 1)
    } else {
        0
    }
}

/// `x` put in its place in the ordered `s`, unless it is there already.
pub open spec fn insert_unique(s: Seq<Seq<char>>, x: Seq<char>) -> Seq<Seq<char>> {
    let p = lt_run(s, x, 0) as int;
    if p < s.len() && s[p] == x {
        s
    } else {
        s.insert(p, x)
    }
}

/// The distinct entries of `s` in ascending order.
pub open spec fn sorted_unique(s: Seq<Seq<char>>) -> Seq<Seq<char>>
    decreases s.len(),
{
    if s.len() == 0 {
        s
    } else {
        insert_unique(sorted_unique(s.drop_last()), s.last())
    }
}

/// The first three distinct names in ascending order.
pub open spec fn first_symbols(names: Seq<Seq<char>>) -> Seq<Seq<char>> {
    let u = sorted_unique(names);
    u.subrange(0, if u.len() < 3 { u.len() as int } else { 3 })
}

/// Whether `a` comes before `b`, as `Ord` on strings has it.
pub fn lex_less(a: &str, b: &str) -> (r: bool)
    ensures
        r == lex_lt(a@, b@),
{
    let x = chars_of(a);
    let y = chars_of(b);
    let mut i: usize = 0;
    while i < x.len() && i < y.len() && x[i] == y[i]
        invariant
            x@ == a@,
            y@ == b@,
            i <= x@.len(),
            i <= y@.len(),
            lex_lt(a@, b@) == lex_from(a@, b@, i as int),
        decreases x@.len() - i,
    {
        i += 1;
    }
    if i == x.len() {
        i < y.len()
    } else if i == y.len() {
        false
    } else {
        x[i] < y[i]
    }
}

/// Appends the names that took part.
fn push_present(out: &mut Vec<String>, v: Vec<Option<String>>)
    ensures
        views(final(out)@) == views(old(out)@) + present(
            v@.map_values(|o: Option<String>| opt_view(o)),
        ),
{
    let ghost ov = v@.map_values(|o: Option<String>| opt_view(o));
    let ghost start = views(out@);
    let mut i: usize = 0;
    while i < v.len()
        invariant
            ov == v@.map_values(|o: Option<String>| opt_view(o)),
            i <= v@.len(),
            views(out@) == start + present(ov.subrange(0, i as int)),
        decreases v@.len() - i,
    {
        let ghost before = views(out@);
        assert(ov.subrange(0, i + 1).drop_last() =~= ov.subrange(0, i as int));
        match &v[i] {
            Some(name) => {
                out.push(name.clone());
                assert(views(out@) =~= before.push(name@));
            },
            None => {},
        }
        i += 1;
    }
    assert(ov.subrange(0, i as int) =~= ov);
}

impl AgentLite {
    /// The names that a diff defines, as the two patterns capture them: functions first,
    /// then types.
    pub fn candidate_symbols(diff: &str) -> (r: Vec<String>)
        ensures
            views(r@) == candidate_names(diff@),
    {
        let mut out: Vec<String> = Vec::new();
        if let Some(v) = capture_group_one(FUNCTION_PATTERN, diff) {
            push_present(&mut out, v);
        }
        let ghost a = views(out@);
        assert(a =~= captured(FUNCTION_PATTERN@, diff@));
        if let Some(v) = capture_group_one(TYPE_PATTERN, diff) {
            push_present(&mut out, v);
        }
        assert(views(out@) =~= a + captured(TYPE_PATTERN@, diff@));
        out
    }

    /// The first three distinct names in ascending order.
    pub fn select_symbols(names: Vec<String>) -> (r: Vec<String>)
        ensures
            views(r@) == first_symbols(views(names@)),
    {
        let ghost all = views(names@);
        let mut out: Vec<String> = Vec::new();
        let mut i: usize = 0;
        while i < names.len()
            invariant
                all == views(names@),
                i <= names@.len(),
                views(out@) == sorted_unique(all.subrange(0, i as int)),
            decreases names@.len() - i,
        {
            let ghost sorted = views(out@);
            let ghost x = all[i as int];
            let mut j: usize = 0;
            assert(lt_run(sorted, x, 0) == 0 + lt_run(sorted, x, 0));
            while j < out.len() && lex_less(out[j].as_str(), names[i].as_str())
                invariant
                    sorted == views(out@),
                    i < names@.len(),
                    x == names@[i as int]@,
                    j <= out@.len(),
                    lt_run(sorted, x, 0) == j + lt_run(sorted, x, j as int),
                decreases out@.len() - j,
            {
                j += 1;
            }
            assert(all.subrange(0, i + 1).drop_last() =~= all.subrange(0, i as int));
            if j < out.len() && same_text(out[j].as_str(), names[i].as_str()) {
            } else {
                out.insert(j, names[i].clone());
                assert(views(out@) =~= sorted.insert(j as int, x));
            }
            i += 1;
        }
        assert(all.subrange(0, i as int) =~= all);
        let n: usize = if out.len() < 3 {
            out.len()
        } else {
            3
        };
        out.truncate(n);
        assert(views(out@) =~= first_symbols(all));
        out
    }

    /// The first three distinct names, in ascending order, of the functions and types that a
    /// diff adds.
    pub fn extract_candidate_symbols(diff: &str) -> (r: Vec<String>)
        ensures
            views(r@) == first_symbols(candidate_names(diff@)),
    {
        Self::select_symbols(Self::candidate_symbols(diff))
    }
}


/// One line per important file with its score.
pub open spec fn file_lines(fs: Seq<(Seq<char>, nat)>) -> Seq<char>
    decreases fs.len(),
{
    if fs.len() == 0 {
        Seq::empty()
    } else {
        file_lines(fs.drop_last()) + "- "@ + fs.last().0 + " (impact: "@ + decimal(fs.last().1)
            + ")\n"@
    }
}

/// One line per symbol found elsewhere in the code, with the number of places.
pub open spec fn usage_lines(us: Seq<(Seq<char>, nat)>) -> Seq<char>
    decreases us.len(),
{
    if us.len() == 0 {
        Seq::empty()
    } else if us.last().1 > 0 {
        usage_lines(us.drop_last()) + "\nSymbol '"@ + us.last().0 + "' found in "@ + decimal(
            us.last().1,
        ) + " locations"@
    } else {
        usage_lines(us.drop_last())
    }
}

pub open spec fn usage_view(v: Seq<(String, usize)>) -> Seq<(Seq<char>, nat)> {
    v.map_values(|e: (String, usize)| (e.0@, e.1 as nat))
}

/// The context appended to the user prompt: the key files, the possible breaking changes,
/// the scope the branch suggests and how often the new symbols are used.
pub open spec fn analysis_context(
    files: Seq<(Seq<char>, nat)>,
    breaking: Seq<Seq<char>>,
    scope: Option<Seq<char>>,
    usage: Seq<(Seq<char>, nat)>,
) -> Seq<char> {
    let u = usage_lines(usage);
    "\n## Analysis Context\n"@ + (if files.len() > 0 {
        "\nKey files modified:\n"@ + file_lines(files)
    } else {
        Seq::empty()
    }) + (if breaking.len() > 0 {
        "\nPotential breaking changes:\n"@ + crate::prompt::commit_lines(breaking)
    } else {
        Seq::empty()
    }) + (match scope {
        Some(sc) => "\nSuggested scope: "@ + sc + "\n"@,
        None => Seq::empty(),
    }) + (if u.len() > 0 {
        "\nSymbol usage:"@ + u + "\n"@
    } else {
        Seq::empty()
    })
}

fn usage_text(usage: &[(String, usize)]) -> (r: String)
    ensures
        r@ == usage_lines(usage_view(usage@)),
{
    let ghost us = usage_view(usage@);
    let mut usage_info = String::new();
    let mut i: usize = 0;
    while i < usage.len()
        invariant
            us == usage_view(usage@),
            i <= usage@.len(),
            usage_info@ == usage_lines(us.subrange(0, i as int)),
        decreases usage@.len() - i,
    {
        assert(us.subrange(0, i + 1).drop_last() =~= us.subrange(0, i as int));
        if usage[i].1 > 0 {
            push_str(&mut usage_info, "\nSymbol '");
            push_str(&mut usage_info, usage[i].0.as_str());
            push_str(&mut usage_info, "' found in ");
            push_decimal(&mut usage_info, usage[i].1 as u64);
            push_str(&mut usage_info, " locations");
        }
        i += 1;
        assert(usage_info@ =~= usage_lines(us.subrange(0, i as int)));
    }
    assert(us.subrange(0, i as int) =~= us);
    usage_info
}

fn push_file_lines(context: &mut String, files: &[(String, u32)])
    ensures
        final(context)@ == old(context)@ + file_lines(scores_view(files@)),
{
    let ghost fs = scores_view(files@);
    let ghost start = context@;
    let mut k: usize = 0;
    while k < files.len()
        invariant
            fs == scores_view(files@),
            k <= files@.len(),
            context@ == start + file_lines(fs.subrange(0, k as int)),
        decreases files@.len() - k,
    {
        assert(fs.subrange(0, k + 1).drop_last() =~= fs.subrange(0, k as int));
        push_str(context, "- ");
        push_str(context, files[k].0.as_str());
        push_str(context, " (impact: ");
        push_decimal(context, files[k].1 as u64);
        push_str(context, ")\n");
        k += 1;
        assert(context@ =~= start + file_lines(fs.subrange(0, k as int)));
    }
    assert(fs.subrange(0, k as int) =~= fs);
}

fn push_item_lines(context: &mut String, items: &[String])
    ensures
        final(context)@ == old(context)@ + crate::prompt::commit_lines(views(items@)),
{
    let ghost bs = views(items@);
    let ghost start = context@;
    let mut k: usize = 0;
    while k < items.len()
        invariant
            bs == views(items@),
            k <= items@.len(),
            context@ == start + crate::prompt::commit_lines(bs.subrange(0, k as int)),
        decreases items@.len() - k,
    {
        assert(bs.subrange(0, k + 1).drop_last() =~= bs.subrange(0, k as int));
        push_str(context, "- ");
        push_str(context, items[k].as_str());
        push_str(context, "\n");
        k += 1;
        assert(context@ =~= start + crate::prompt::commit_lines(bs.subrange(0, k as int)));
    }
    assert(bs.subrange(0, k as int) =~= bs);
}

impl AgentLite {
    /// The context text for the prompt from the results of the analysis steps.
    pub fn analysis_context(
        important_files: &[(String, u32)],
        breaking_changes: &[String],
        scope_hint: Option<String>,
        usage: &[(String, usize)],
    ) -> (r: String)
        ensures
            r@ == analysis_context(
                scores_view(important_files@),
                views(breaking_changes@),
                opt_view(scope_hint),
                usage_view(usage@),
            ),
    {
        let usage_info = usage_text(usage);
        let mut context = String::new();
        push_str(&mut context, "\n## Analysis Context\n");
        if important_files.len() > 0 {
            push_str(&mut context, "\nKey files modified:\n");
            push_file_lines(&mut context, important_files);
        }
        if breaking_changes.len() > 0 {
            push_str(&mut context, "\nPotential breaking changes:\n");
            push_item_lines(&mut context, breaking_changes);
        }
        if let Some(scope) = &scope_hint {
            push_str(&mut context, "\nSuggested scope: ");
            push_str(&mut context, scope.as_str());
            push_str(&mut context, "\n");
        }
        if !usage_info.as_str().is_empty() {
            push_str(&mut context, "\nSymbol usage:");
            push_str(&mut context, usage_info.as_str());
            push_str(&mut context, "\n");
        }
        assert(context@ =~= analysis_context(
            scores_view(important_files@),
            views(breaking_changes@),
            opt_view(scope_hint),
            usage_view(usage@),
        ));
        context
    }
}

} // verus!
