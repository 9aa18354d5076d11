use vstd::prelude::*;
use crate::text::{chars_of, is_space, push_str, same_text, space, views};

verus! {

/// The four options offered for a generated message.
#[derive(Debug, Clone, Copy, PartialEq, Eq)]
pub enum Choice {
    Commit,
    Edit,
    Regenerate,
    Cancel,
}

/// What happened since the last step.
#[derive(Debug)]
pub enum ReviewEvent {
    /// The user picked an option.
    Chose(Choice),
    /// The editor closed: the text it saved, or `None` when it failed.
    EditorClosed(Option<String>),
    /// A new candidate set arrived.
    Regenerated(Vec<String>),
}

/// Where the review of a candidate set stands.
#[derive(Debug)]
pub enum ReviewState {
    /// Candidates are shown and an option is awaited; the first one is current.
    Generated(Vec<String>),
    /// The editor holds the current candidate.
    Editing(Vec<String>),
    /// New candidates have been asked for.
    Regenerating(Vec<String>),
    /// The commit was made with this text.
    Committed(String),
    /// The user gave up; the command ends with a cancellation.
    Cancelled,
}

/// What the caller has to do next.
#[derive(Debug)]
pub enum ReviewAction {
    /// Show the candidates and the four options.
    ShowOptions,
    /// Open the editor seeded with this text.
    OpenEditor(String),
    /// Ask for a new candidate set with the same prompts and count.
    Regenerate,
    /// Commit with this text.
    Commit(String),
    /// End the command as cancelled by the user.
    Cancel,
}

/// Text that holds nothing but white space.
pub open spec fn is_blank(s: Seq<char>) -> bool {
    forall|i: int| 0 <= i < s.len() ==> is_space(s[i])
}

pub open spec fn is_terminal(s: ReviewState) -> bool {
    s is Committed || s is Cancelled
}

/// The events that a state can take; a terminal state takes none. Committing or editing
/// needs a current candidate; a new candidate set may be empty.
pub open spec fn accepts(s: ReviewState, e: ReviewEvent) -> bool {
    match s {
        ReviewState::Generated(ms) => match e {
            ReviewEvent::Chose(c) => ms@.len() > 0 || c == Choice::Regenerate || c == Choice::Cancel,
            _ => false,
        },
        ReviewState::Editing(_) => e is EditorClosed,
        ReviewState::Regenerating(_) => e is Regenerated,
        _ => false,
    }
}

/// The state and action that follow `s` on an event it takes.
pub open spec fn transition(s: ReviewState, e: ReviewEvent) -> (ReviewState, ReviewAction) {
    match s {
        ReviewState::Generated(ms) => match e {
            ReviewEvent::Chose(Choice::Commit) => (
                ReviewState::Committed(ms@[0]),
                ReviewAction::Commit(ms@[0]),
            ),
            ReviewEvent::Chose(Choice::Edit) => (
                ReviewState::Editing(ms),
                ReviewAction::OpenEditor(ms@[0]),
            ),
            ReviewEvent::Chose(Choice::Regenerate) => (
                ReviewState::Regenerating(ms),
                ReviewAction::Regenerate,
            ),
            _ => (ReviewState::Cancelled, ReviewAction::Cancel),
        },
        ReviewState::Editing(_) => match e {
            ReviewEvent::EditorClosed(Some(t)) => if is_blank(t@) {
                (ReviewState::Cancelled, ReviewAction::Cancel)
            } else {
                (ReviewState::Committed(t), ReviewAction::Commit(t))
            },
            _ => (ReviewState::Cancelled, ReviewAction::Cancel),
        },
        _ => match e {
            ReviewEvent::Regenerated(ns) => (ReviewState::Generated(ns), ReviewAction::ShowOptions),
            _ => (ReviewState::Cancelled, ReviewAction::Cancel),
        },
    }
}

/// Whether `s` holds nothing but white space.
pub fn blank(s: &str) -> (r: bool)
    ensures
        r == is_blank(s@),
{
    let cs = chars_of(s);
    let mut i: usize = 0;
    while i < cs.len()
        invariant
            cs@ == s@,
            i <= cs@.len(),
            forall|j: int| 0 <= j < i ==> is_space(cs@[j]),
        decreases cs@.len() - i,
    {
        if !space(cs[i]) {
            return false;
        }
        i += 1;
    }
    true
}

impl ReviewState {
    /// The first step on a fresh candidate set: with auto-accept the first candidate is
    /// committed at once and no option is shown.
    pub fn start(messages: Vec<String>, auto_accept: bool) -> (r: (ReviewState, ReviewAction))
        requires
            messages@.len() > 0,
        ensures
            auto_accept ==> r == (
                ReviewState::Committed(messages@[0]),
                ReviewAction::Commit(messages@[0]),
            ),
            !auto_accept ==> r == (ReviewState::Generated(messages), ReviewAction::ShowOptions),
    {
        if auto_accept {
            let m = messages[0].clone();
            let n = messages[0].clone();
            (ReviewState::Committed(m), ReviewAction::Commit(n))
        } else {
            (ReviewState::Generated(messages), ReviewAction::ShowOptions)
        }
    }

    /// Whether `choice` can be taken in this state: committing and editing need a current
    /// candidate.
    pub fn can_choose(&self, choice: Choice) -> (r: bool)
        ensures
            r == accepts(*self, ReviewEvent::Chose(choice)),
    {
        match self {
            ReviewState::Generated(ms) => ms.len() > 0 || matches!(choice, Choice::Regenerate)
                || matches!(choice, Choice::Cancel),
            _ => false,
        }
    }

    pub fn is_terminal(&self) -> (r: bool)
        ensures
            r == is_terminal(*self),
    {
        match self {
            ReviewState::Committed(_) | ReviewState::Cancelled => true,
            _ => false,
        }
    }

    /// The next state and action on an event that this state takes.
    pub fn step(self, event: ReviewEvent) -> (r: (ReviewState, ReviewAction))
        requires
            accepts(self, event),
        ensures
            r == transition(self, event),
    {
        match self {
            ReviewState::Generated(ms) => match event {
                ReviewEvent::Chose(Choice::Commit) => {
                    let m = ms[0].clone();
                    let n = ms[0].clone();
                    (ReviewState::Committed(m), ReviewAction::Commit(n))
                },
                ReviewEvent::Chose(Choice::Edit) => {
                    let seed = ms[0].clone();
                    (ReviewState::Editing(ms), ReviewAction::OpenEditor(seed))
                },
                ReviewEvent::Chose(Choice::Regenerate) => {
                    (ReviewState::Regenerating(ms), ReviewAction::Regenerate)
                },
                _ => (ReviewState::Cancelled, ReviewAction::Cancel),
            },
            ReviewState::Editing(_) => match event {
                ReviewEvent::EditorClosed(Some(t)) => {
                    if blank(t.as_str()) {
                        (ReviewState::Cancelled, ReviewAction::Cancel)
                    } else {
                        let c = t.clone();
                        (ReviewState::Committed(c), ReviewAction::Commit(t))
                    }
                },
                _ => (ReviewState::Cancelled, ReviewAction::Cancel),
            },
            _ => match event {
                ReviewEvent::Regenerated(ns) => (ReviewState::Generated(ns), ReviewAction::ShowOptions),
                _ => (ReviewState::Cancelled, ReviewAction::Cancel),
            },
        }
    }
}

/// Every run of the review ends in exactly one of `Committed` and `Cancelled`: a terminal
/// state takes no event; from `Generated` every event leads to a terminal state, to
/// `Editing`, whose every event leads to a terminal state, or to `Regenerating`; and
/// `Regenerating` only ever returns to `Generated`, never to a terminal state.
pub proof fn review_terminality(s: ReviewState, e: ReviewEvent)
    ensures
        !(s is Committed && s is Cancelled),
        is_terminal(s) ==> !accepts(s, e),
        s is Generated && accepts(s, e) ==> ({
            let n = transition(s, e).0;
            is_terminal(n) || n is Editing || n is Regenerating
        }),
        s is Generated && accepts(s, e) && e == ReviewEvent::Chose(Choice::Regenerate) ==> transition(
            s,
            e,
        ).0 is Regenerating,
        s is Editing && accepts(s, e) ==> is_terminal(transition(s, e).0),
        s is Regenerating && accepts(s, e) ==> transition(s, e).0 is Generated,
{
}


/// The option at a menu position: commit, edit, regenerate, cancel.
pub fn choice_from_index(index: usize) -> (r: Option<Choice>)
    ensures
        index == 0 ==> r == Some(Choice::Commit),
        index == 1 ==> r == Some(Choice::Edit),
        index == 2 ==> r == Some(Choice::Regenerate),
        index == 3 ==> r == Some(Choice::Cancel),
        index > 3 ==> r is None,
{
    if index == 0 {
        Some(Choice::Commit)
    } else if index == 1 {
        Some(Choice::Edit)
    } else if index == 2 {
        Some(Choice::Regenerate)
    } else if index == 3 {
        Some(Choice::Cancel)
    } else {
        None
    }
}

/// The editor to open: `EDITOR`, else `VISUAL`, else the platform's default.
pub fn resolve_editor(editor: Option<String>, visual: Option<String>, windows: bool) -> (r: String)
    ensures
        editor is Some ==> r == editor->Some_0,
        editor is None && visual is Some ==> r == visual->Some_0,
        editor is None && visual is None && windows ==> r@ == "notepad"@,
        editor is None && visual is None && !windows ==> r@ == "vi"@,
{
    match editor {
        Some(e) => e,
        None => match visual {
            Some(v) => v,
            None => if windows {
                "notepad".to_owned()
            } else {
                "vi".to_owned()
            },
        },
    }
}

/// The entries of `s` without repeats, each where it first occurs.
pub open spec fn first_occurrences(s: Seq<Seq<char>>) -> Seq<Seq<char>>
    decreases s.len(),
{
    if s.len() == 0 {
        s
    } else {
        let d = first_occurrences(s.drop_last());
        if d.contains(s.last()) {
            d
        } else {
            d.push(s.last())
        }
    }
}

/// The paths to stage, each once, in the order first selected.
pub fn unique_paths(paths: Vec<String>) -> (r: Vec<String>)
    ensures
        views(r@) == first_occurrences(views(paths@)),
{
    let ghost all = views(paths@);
    let mut out: Vec<String> = Vec::new();
    let mut i: usize = 0;
    while i < paths.len()
        invariant
            all == views(paths@),
            i <= paths@.len(),
            views(out@) == first_occurrences(all.subrange(0, i as int)),
        decreases paths@.len() - i,
    {
        let ghost d = views(out@);
        assert(all.subrange(0, i + 1).drop_last() =~= all.subrange(0, i as int));
        let mut j: usize = 0;
        let mut seen = false;
        while j < out.len()
            invariant
                d == views(out@),
                i < paths@.len(),
                j <= out@.len(),
                seen == (exists|k: int| 0 <= k < j && d[k] == paths@[i as int]@),
            decreases out@.len() - j,
        {
            assert(d[j as int] == out@[j as int]@);
            if same_text(out[j].as_str(), paths[i].as_str()) {
                seen = true;
            }
            assert(seen == (exists|k: int| 0 <= k < j + 1 && d[k] == paths@[i as int]@)) by {
                if exists|k: int| 0 <= k < j + 1 && d[k] == paths@[i as int]@ {
                    let k = choose|k: int| 0 <= k < j + 1 && d[k] == paths@[i as int]@;
                    if k < j {
                    }
                }
            }
            j += 1;
        }
        if !seen {
            out.push(paths[i].clone());
            assert(views(out@) =~= d.push(all[i as int]));
        } else {
            assert(d.contains(all[i as int]));
        }
        i += 1;
    }
    assert(all.subrange(0, i as int) =~= all);
    out
}

/// The generated messages as printed: one after another, each on its own line, with a
/// `---END---` line between two unless quiet.
pub open spec fn rendered(ms: Seq<Seq<char>>, quiet: bool) -> Seq<char>
    decreases ms.len(),
{
    if ms.len() == 0 {
        Seq::empty()
    } else {
        rendered(ms.drop_last(), quiet) + (if !quiet && ms.len() > 1 {
            "---END---\n"@
        } else {
            Seq::empty()
        }) + ms.last() + "\n"@
    }
}

/// The text printed for the generated messages.
pub fn render_messages(messages: &[String], quiet: bool) -> (r: String)
    ensures
        r@ == rendered(views(messages@), quiet),
{
    let ghost ms = views(messages@);
    let mut r = String::new();
    let mut i: usize = 0;
    while i < messages.len()
        invariant
            ms == views(messages@),
            i <= messages@.len(),
            r@ == rendered(ms.subrange(0, i as int), quiet),
        decreases messages@.len() - i,
    {
        assert(ms.subrange(0, i + 1).drop_last() =~= ms.subrange(0, i as int));
        if !quiet && i > 0 {
            push_str(&mut r, "---END---\n");
        }
        push_str(&mut r, messages[i].as_str());
        push_str(&mut r, "\n");
        i += 1;
        assert(r@ =~= rendered(ms.subrange(0, i as int), quiet));
    }
    assert(ms.subrange(0, i as int) =~= ms);
    r
}

} // verus!
