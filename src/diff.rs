use vstd::prelude::*;
use crate::error::GitAiError;
use crate::text::{chars_of, push_slice, string_of};

verus! {

/// The diff budget, in characters, when none is configured.
pub const DEFAULT_MAX_DIFF_CHARS: usize = 5000;

pub open spec fn is_digit(c: char) -> bool {
    '0' <= c && c <= '9'
}

/// The number that a string of decimal digits denotes.
pub open spec fn digits_value(s: Seq<char>) -> nat
    decreases s.len(),
{
    if s.len() == 0 {
        0
    } else {
        digits_value(s.drop_last()) * 10 + (s.last() as nat - '0' as nat) as nat
    }
}

/// What `usize::from_str` gives: an optional `+`, then one or more decimal digits, with
/// a value that fits.
pub open spec fn parse_usize(s: Seq<char>) -> Option<nat> {
    let body = unsigned_body(s);
    if body.len() > 0 && all_digits(body) && digits_value(body) <= usize::MAX {
        Some(digits_value(body))
    } else {
        None
    }
}

/// `s` without a leading `+`.
pub open spec fn unsigned_body(s: Seq<char>) -> Seq<char> {
    if s.len() > 0 && s[0] == '+' {
        s.drop_first()
    } else {
        s
    }
}

pub open spec fn all_digits(s: Seq<char>) -> bool {
    forall|i: int| 0 <= i < s.len() ==> is_digit(#[trigger] s[i])
}

/// The diff text within the budget, and whether it had to be cut.
pub open spec fn truncated(diff: Seq<char>, max: nat) -> (Seq<char>, bool) {
    if diff.len() > max {
        (diff.subrange(0, max as int), true)
    } else {
        (diff, false)
    }
}

proof fn lemma_digits_monotone(s: Seq<char>, i: int)
    requires
        0 <= i <= s.len(),
        all_digits(s),
    ensures
        digits_value(s.subrange(0, i)) <= digits_value(s),
    decreases s.len() - i,
{
    if i < s.len() {
        lemma_digits_monotone(s, i + 1);
        assert(s.subrange(0, i + 1).drop_last() =~= s.subrange(0, i));
    } else {
        assert(s.subrange(0, i) =~= s);
    }
}

proof fn lemma_parse_fails(s: Seq<char>, body: Seq<char>)
    requires
        body == unsigned_body(s),
        !all_digits(body) || digits_value(body) > usize::MAX,
    ensures
        parse_usize(s) is None,
{
}

/// Prepares diffs for the prompt.
pub struct DiffPreparer;

impl DiffPreparer {
    /// The budget named by an override value, or the default one when the value is absent or
    /// is not a number.
    pub fn max_diff_chars(value: Option<&str>) -> (r: usize)
        ensures
            value is Some && parse_usize(value->Some_0@) is Some ==> r == parse_usize(
                value->Some_0@,
            )->Some_0,
            value is Some && parse_usize(value->Some_0@) is None ==> r == DEFAULT_MAX_DIFF_CHARS,
            value is None ==> r == DEFAULT_MAX_DIFF_CHARS,
    {
        match value {
            Some(v) => match parse_decimal(v) {
                Some(n) => n,
                None => DEFAULT_MAX_DIFF_CHARS,
            },
            None => DEFAULT_MAX_DIFF_CHARS,
        }
    }

    /// Cuts `diff` at `max_chars` characters when it is longer, and says whether it did.
    pub fn truncate(diff: &str, max_chars: usize) -> (r: (String, bool))
        ensures
            (r.0@, r.1) == truncated(diff@, max_chars as nat),
            diff@.len() > max_chars ==> r.0@.len() == max_chars && r.1,
            diff@.len() <= max_chars ==> r.0@ == diff@ && !r.1,
    {
        let cs = chars_of(diff);
        if cs.len() > max_chars {
            let mut out: Vec<char> = Vec::new();
            push_slice(&mut out, &cs, 0, max_chars);
            (string_of(&out), true)
        } else {
            (diff.to_owned(), false)
        }
    }

    /// The staged diff ready for the prompt: an empty diff means nothing is staged.
    pub fn prepare(diff: &str, max_chars: usize) -> (r: Result<(String, bool), GitAiError>)
        ensures
            diff@.len() == 0 ==> r matches Err(GitAiError::NoStagedChanges),
            diff@.len() > 0 ==> (r is Ok && (r->Ok_0.0@, r->Ok_0.1) == truncated(
                diff@,
                max_chars as nat,
            )),
    {
        if diff.is_empty() {
            return Err(GitAiError::NoStagedChanges);
        }
        Ok(Self::truncate(diff, max_chars))
    }
}

/// Reads a `usize` written in decimal, as `usize::from_str` does.
pub fn parse_decimal(s: &str) -> (r: Option<usize>)
    ensures
        r is Some ==> parse_usize(s@) == Some(r->Some_0 as nat),
        r is None ==> parse_usize(s@) is None,
{
    let cs = chars_of(s);
    let start: usize = if cs.len() > 0 && cs[0] == '+' {
        1
    } else {
        0
    };
    let ghost body = unsigned_body(s@);
    assert(body =~= cs@.subrange(start as int, cs@.len() as int));
    if start == cs.len() {
        return None;
    }
    let mut v: usize = 0;
    let mut i: usize = start;
    while i < cs.len()
        invariant
            start <= i <= cs@.len(),
            body == cs@.subrange(start as int, cs@.len() as int),
            body == unsigned_body(s@),
            cs@ == s@,
            start < cs@.len(),
            forall|j: int| start <= j < i ==> is_digit(#[trigger] cs@[j]),
            v as nat == digits_value(cs@.subrange(start as int, i as int)),
        decreases cs@.len() - i,
    {
        let c = cs[i];
        if !('0' <= c && c <= '9') {
            assert(body[i - start] == cs@[i as int]);
            assert(!is_digit(body[i - start]));
            assert(!all_digits(body));
            proof {
                lemma_parse_fails(s@, body);
            }
            return None;
        }
        let d: usize = (c as u32 - '0' as u32) as usize;
        assert(cs@.subrange(start as int, i + 1).drop_last() =~= cs@.subrange(start as int, i as int));
        if v > (usize::MAX - d) / 10 {
            proof {
                assert((v + 1) * 10 > usize::MAX - d) by (nonlinear_arith)
                    requires v > (usize::MAX - d) / 10, d <= 9;
                if all_digits(body) {
                    lemma_digits_monotone(body, i + 1 - start);
                    assert(body.subrange(0, i + 1 - start) =~= cs@.subrange(start as int, i + 1));
                    assert(digits_value(cs@.subrange(start as int, i + 1)) == v * 10 + d);
                    assert(digits_value(body) > usize::MAX);
                }
                lemma_parse_fails(s@, body);
            }
            return None;
        }
        assert(v * 10 + d <= usize::MAX) by (nonlinear_arith)
            requires v <= (usize::MAX - d) / 10, d <= 9;
        v = v * 10 + d;
        i += 1;
    }
    assert(body =~= cs@.subrange(start as int, i as int));
    Some(v)
}

} // verus!
