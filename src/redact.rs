use vstd::prelude::*;
use crate::text::{
    chars_of, contains_seq, in_class, is_alnum, is_space, is_token_char, lemma_run_bound,
    matches_at, occurs_at, push_slice, run_at, run_len, string_of, token_char, CharClass,
};

verus! {

/// What a provider key is replaced with.
pub open spec fn key_mask() -> Seq<char> {
    "sk-****..."@
}

/// What a bearer credential is replaced with.
pub open spec fn bearer_mask() -> Seq<char> {
    "Bearer ****..."@
}

/// A provider key starts at `i`: `sk-` and at least 20 letters or digits.
pub open spec fn is_key_at(s: Seq<char>, i: int) -> bool {
    occurs_at(s, "sk-"@, i) && run_len(s, i + 3, CharClass::Alnum) >= 20
}

/// A bearer credential starts at `i`: `Bearer`, white space, and at least 20 token characters.
pub open spec fn is_bearer_at(s: Seq<char>, i: int) -> bool {
    &&& occurs_at(s, "Bearer"@, i)
    &&& run_len(s, i + 6, CharClass::Space) >= 1
    &&& run_len(s, i + 6 + run_len(s, i + 6, CharClass::Space), CharClass::Token) >= 20
}

/// The first rule on `s` from position `i`: each provider key, leftmost first and taken
/// whole, becomes the key mask.
pub open spec fn mask_keys_from(s: Seq<char>, i: int) -> Seq<char>
    decreases s.len() - i,
{
    if i < 0 || i >= s.len() {
        Seq::empty()
    } else if is_key_at(s, i) {
        proof {
            lemma_run_bound(s, i + 3, CharClass::Alnum);
        }
        key_mask() + mask_keys_from(s, i + 3 + run_len(s, i + 3, CharClass::Alnum))
    } else {
        seq![s[i]] + mask_keys_from(s, i + 1)
    }
}

/// The end of the bearer credential that starts at `i`.
pub open spec fn bearer_end(s: Seq<char>, i: int) -> int {
    let w = run_len(s, i + 6, CharClass::Space);
    i + 6 + w + run_len(s, i + 6 + w, CharClass::Token)
}

/// The second rule: each bearer credential becomes the bearer mask.
pub open spec fn mask_bearer_from(s: Seq<char>, i: int) -> Seq<char>
    decreases s.len() - i,
{
    if i < 0 || i >= s.len() {
        Seq::empty()
    } else if is_bearer_at(s, i) {
        proof {
            lemma_run_bound(s, i + 6, CharClass::Space);
            lemma_run_bound(s, i + 6 + run_len(s, i + 6, CharClass::Space), CharClass::Token);
        }
        bearer_mask() + mask_bearer_from(s, bearer_end(s, i))
    } else {
        seq![s[i]] + mask_bearer_from(s, i + 1)
    }
}

/// A run of token characters as it stands in the output: from 24 characters on, only its
/// first and last three are kept around a fixed mask.
pub open spec fn masked_run(run: Seq<char>) -> Seq<char> {
    if run.len() >= 24 {
        run.subrange(0, 3) + "****"@ + run.subrange(run.len() - 3, run.len() as int)
    } else {
        run
    }
}

/// The third rule: each maximal run of token characters is masked as `masked_run` says.
pub open spec fn mask_long_from(s: Seq<char>, i: int) -> Seq<char>
    decreases s.len() - i,
{
    if i < 0 || i >= s.len() {
        Seq::empty()
    } else if is_token_char(s[i]) {
        let k = run_len(s, i, CharClass::Token);
        proof {
            lemma_run_bound(s, i, CharClass::Token);
        }
        masked_run(s.subrange(i, i + k)) + mask_long_from(s, i + k)
    } else {
        seq![s[i]] + mask_long_from(s, i + 1)
    }
}

pub open spec fn mask_keys(s: Seq<char>) -> Seq<char> {
    mask_keys_from(s, 0)
}

pub open spec fn mask_bearer(s: Seq<char>) -> Seq<char> {
    mask_bearer_from(s, 0)
}

pub open spec fn mask_long(s: Seq<char>) -> Seq<char> {
    mask_long_from(s, 0)
}

/// Full redaction: keys, then bearer credentials, then any remaining long token.
pub open spec fn redacted(s: Seq<char>) -> Seq<char> {
    mask_long(mask_bearer(mask_keys(s)))
}


fn push_all(out: &mut Vec<char>, lit: &str)
    ensures
        final(out)@ == old(out)@ + lit@,
{
    let cs = chars_of(lit);
    let mut i: usize = 0;
    while i < cs.len()
        invariant
            cs@ == lit@,
            i <= cs@.len(),
            out@ == old(out)@ + cs@.subrange(0, i as int),
        decreases cs@.len() - i,
    {
        out.push(cs[i]);
        i += 1;
        assert(out@ =~= old(out)@ + cs@.subrange(0, i as int));
    }
    assert(cs@.subrange(0, cs@.len() as int) =~= cs@);
}

fn apply_keys(cs: &Vec<char>) -> (r: Vec<char>)
    ensures
        r@ == mask_keys(cs@),
{
    let prefix = chars_of("sk-");
    let mut out: Vec<char> = Vec::new();
    let mut i: usize = 0;
    while i < cs.len()
        invariant
            prefix@ == "sk-"@,
            i <= cs@.len(),
            out@ + mask_keys_from(cs@, i as int) == mask_keys(cs@),
        decreases cs@.len() - i,
    {
        let ghost before = out@;
        proof {
            reveal_strlit("sk-");
        }
        let key = matches_at(cs, &prefix, i) && run_at(cs, i + 3, CharClass::Alnum) >= 20;
        if key {
            let n = run_at(cs, i + 3, CharClass::Alnum);
            push_all(&mut out, "sk-****...");
            assert(out@ + mask_keys_from(cs@, (i + 3 + n) as int) =~= before + mask_keys_from(
                cs@,
                i as int,
            ));
            i = i + 3 + n;
        } else {
            out.push(cs[i]);
            assert(out@ + mask_keys_from(cs@, (i + 1) as int) =~= before + mask_keys_from(
                cs@,
                i as int,
            ));
            i += 1;
        }
    }
    assert(out@ =~= out@ + mask_keys_from(cs@, i as int));
    out
}

fn apply_bearer(cs: &Vec<char>) -> (r: Vec<char>)
    ensures
        r@ == mask_bearer(cs@),
{
    let prefix = chars_of("Bearer");
    let mut out: Vec<char> = Vec::new();
    let mut i: usize = 0;
    while i < cs.len()
        invariant
            prefix@ == "Bearer"@,
            i <= cs@.len(),
            out@ + mask_bearer_from(cs@, i as int) == mask_bearer(cs@),
        decreases cs@.len() - i,
    {
        let ghost before = out@;
        proof {
            reveal_strlit("Bearer");
        }
        let mut end: usize = 0;
        let mut found = false;
        if matches_at(cs, &prefix, i) {
            let w = run_at(cs, i + 6, CharClass::Space);
            if w >= 1 {
                let t = run_at(cs, i + 6 + w, CharClass::Token);
                if t >= 20 {
                    found = true;
                    end = i + 6 + w + t;
                }
            }
        }
        if found {
            assert(is_bearer_at(cs@, i as int));
            push_all(&mut out, "Bearer ****...");
            assert(out@ + mask_bearer_from(cs@, end as int) =~= before + mask_bearer_from(
                cs@,
                i as int,
            ));
            i = end;
        } else {
            out.push(cs[i]);
            assert(out@ + mask_bearer_from(cs@, (i + 1) as int) =~= before + mask_bearer_from(
                cs@,
                i as int,
            ));
            i += 1;
        }
    }
    assert(out@ =~= out@ + mask_bearer_from(cs@, i as int));
    out
}

fn apply_long(cs: &Vec<char>) -> (r: Vec<char>)
    ensures
        r@ == mask_long(cs@),
{
    let mut out: Vec<char> = Vec::new();
    let mut i: usize = 0;
    while i < cs.len()
        invariant
            i <= cs@.len(),
            out@ + mask_long_from(cs@, i as int) == mask_long(cs@),
        decreases cs@.len() - i,
    {
        let ghost before = out@;
        if token_char(cs[i]) {
            let k = run_at(cs, i, CharClass::Token);
            let ghost run = cs@.subrange(i as int, (i + k) as int);
            if k >= 24 {
                push_slice(&mut out, cs, i, i + 3);
                push_all(&mut out, "****");
                push_slice(&mut out, cs, i + k - 3, i + k);
                assert(run.subrange(0, 3) =~= cs@.subrange(i as int, i + 3));
                assert(run.subrange(run.len() - 3, run.len() as int) =~= cs@.subrange(
                    i + k - 3,
                    (i + k) as int,
                ));
            } else {
                push_slice(&mut out, cs, i, i + k);
            }
            assert(out@ =~= before + masked_run(run));
            assert(out@ + mask_long_from(cs@, (i + k) as int) =~= before + mask_long_from(
                cs@,
                i as int,
            ));
            i = i + k;
        } else {
            out.push(cs[i]);
            assert(out@ + mask_long_from(cs@, (i + 1) as int) =~= before + mask_long_from(
                cs@,
                i as int,
            ));
            i += 1;
        }
    }
    assert(out@ =~= out@ + mask_long_from(cs@, i as int));
    out
}

/// Scrubs credential-shaped text: provider keys, then bearer credentials, then every
/// remaining run of 24 or more token characters.
pub fn redact_secrets(input: &str) -> (r: String)
    ensures
        r@ == redacted(input@),
{
    let cs = chars_of(input);
    let a = apply_keys(&cs);
    let b = apply_bearer(&a);
    let c = apply_long(&b);
    string_of(&c)
}

// Facts about the masks and the rules, leading to the laws at the end of this file.

/// No provider key occurs in `t`.
pub open spec fn no_key(t: Seq<char>) -> bool {
    forall|i: int| !#[trigger] is_key_at(t, i)
}

/// No bearer credential occurs in `t`.
pub open spec fn no_bearer(t: Seq<char>) -> bool {
    forall|i: int| !#[trigger] is_bearer_at(t, i)
}

/// Every run of token characters in `t` is shorter than 24.
pub open spec fn short_runs(t: Seq<char>) -> bool {
    forall|i: int| 0 <= i < t.len() ==> #[trigger] run_len(t, i, CharClass::Token) < 24
}

proof fn lemma_masks()
    ensures
        key_mask().len() == 10,
        key_mask()[0] == 's' && key_mask()[1] == 'k' && key_mask()[2] == '-',
        forall|j: int| 3 <= j < 7 ==> key_mask()[j] == '*',
        forall|j: int| 7 <= j < 10 ==> key_mask()[j] == '.',
        bearer_mask().len() == 14,
        bearer_mask().subrange(0, 6) == "Bearer"@,
        bearer_mask()[0] == 'B' && bearer_mask()[6] == ' ',
        forall|j: int| 1 <= j < 14 ==> bearer_mask()[j] != 'B' && bearer_mask()[j] != 's',
        forall|j: int| 7 <= j < 11 ==> bearer_mask()[j] == '*',
        forall|j: int| 11 <= j < 14 ==> bearer_mask()[j] == '.',
        "sk-"@.len() == 3 && "sk-"@[0] == 's' && "sk-"@[1] == 'k' && "sk-"@[2] == '-',
        "Bearer"@.len() == 6 && "Bearer"@[0] == 'B',
        forall|j: int| 0 <= j < 6 ==> is_alnum(#[trigger] "Bearer"@[j]),
        "****"@.len() == 4 && forall|j: int| 0 <= j < 4 ==> "****"@[j] == '*',
{
    reveal_strlit("sk-****...");
    reveal_strlit("Bearer ****...");
    reveal_strlit("sk-");
    reveal_strlit("Bearer");
    reveal_strlit("****");
    assert(bearer_mask().subrange(0, 6) =~= "Bearer"@);
}

/// Runs read past a prefix are the runs of what follows it.
pub proof fn lemma_run_shift(a: Seq<char>, b: Seq<char>, q: int, c: CharClass)
    requires
        0 <= q,
    ensures
        run_len(a + b, a.len() + q, c) == run_len(b, q, c),
    decreases b.len() - q,
{
    if q < b.len() && in_class(b[q], c) {
        lemma_run_shift(a, b, q + 1, c);
    }
}

/// Two texts that agree on `n` characters, each followed by its end or by a character outside
/// the class, have the same runs there.
pub proof fn lemma_run_agree(
    s1: Seq<char>,
    x1: int,
    s2: Seq<char>,
    x2: int,
    n: int,
    c: CharClass,
    j: int,
)
    requires
        0 <= x1,
        0 <= x2,
        0 <= j <= n,
        x1 + n <= s1.len(),
        x2 + n <= s2.len(),
        s1.subrange(x1, x1 + n) == s2.subrange(x2, x2 + n),
        x1 + n == s1.len() || !in_class(s1[x1 + n], c),
        x2 + n == s2.len() || !in_class(s2[x2 + n], c),
    ensures
        run_len(s1, x1 + j, c) == run_len(s2, x2 + j, c),
    decreases n - j,
{
    if j < n {
        assert(s1.subrange(x1, x1 + n)[j] == s2.subrange(x2, x2 + n)[j]);
        assert(s1.subrange(x1, x1 + n)[j] == s1[x1 + j]);
        assert(s2.subrange(x2, x2 + n)[j] == s2[x2 + j]);
        lemma_run_agree(s1, x1, s2, x2, n, c, j + 1);
    }
}

pub proof fn lemma_occurs_shift(a: Seq<char>, b: Seq<char>, p: Seq<char>, q: int)
    requires
        0 <= q,
    ensures
        occurs_at(a + b, p, a.len() + q) == occurs_at(b, p, q),
{
    if q + p.len() <= b.len() {
        assert((a + b).subrange(a.len() + q, a.len() + q + p.len()) =~= b.subrange(q, q + p.len()));
    }
}

pub proof fn lemma_key_shift(a: Seq<char>, b: Seq<char>, q: int)
    requires
        0 <= q,
    ensures
        is_key_at(a + b, a.len() + q) == is_key_at(b, q),
{
    lemma_occurs_shift(a, b, "sk-"@, q);
    lemma_run_shift(a, b, q + 3, CharClass::Alnum);
}

pub proof fn lemma_bearer_shift(a: Seq<char>, b: Seq<char>, q: int)
    requires
        0 <= q,
    ensures
        is_bearer_at(a + b, a.len() + q) == is_bearer_at(b, q),
{
    lemma_occurs_shift(a, b, "Bearer"@, q);
    lemma_run_shift(a, b, q + 6, CharClass::Space);
    let w = run_len(b, q + 6, CharClass::Space);
    lemma_run_shift(a, b, q + 6 + w, CharClass::Token);
}

proof fn lemma_no_key_concat(a: Seq<char>, b: Seq<char>)
    requires
        no_key(b),
        forall|p: int| 0 <= p < a.len() ==> !#[trigger] is_key_at(a + b, p),
    ensures
        no_key(a + b),
{
    assert forall|i: int| !#[trigger] is_key_at(a + b, i) by {
        if i >= a.len() {
            lemma_key_shift(a, b, i - a.len());
        }
    }
}

proof fn lemma_no_bearer_concat(a: Seq<char>, b: Seq<char>)
    requires
        no_bearer(b),
        forall|p: int| 0 <= p < a.len() ==> !#[trigger] is_bearer_at(a + b, p),
    ensures
        no_bearer(a + b),
{
    assert forall|i: int| !#[trigger] is_bearer_at(a + b, i) by {
        if i >= a.len() {
            lemma_bearer_shift(a, b, i - a.len());
        }
    }
}

proof fn lemma_first_char(t: Seq<char>, p: Seq<char>, i: int)
    requires
        occurs_at(t, p, i),
        p.len() > 0,
    ensures
        t[i] == p[0],
{
    assert(t.subrange(i, i + p.len())[0] == t[i]);
}

/// Output that begins with characters other than `s` copies them from the input.
proof fn lemma_keys_copy(s: Seq<char>, j: int, q: Seq<char>)
    requires
        0 <= j <= s.len(),
        q.len() <= mask_keys_from(s, j).len(),
        mask_keys_from(s, j).subrange(0, q.len() as int) == q,
        forall|k: int| 0 <= k < q.len() ==> q[k] != 's',
    ensures
        j + q.len() <= s.len(),
        s.subrange(j, j + q.len()) == q,
        mask_keys_from(s, j) == q + mask_keys_from(s, j + q.len()),
    decreases q.len(),
{
    lemma_masks();
    if q.len() == 0 {
        assert(mask_keys_from(s, j) =~= q + mask_keys_from(s, j + q.len()));
        assert(s.subrange(j, j) =~= q);
    } else {
        let out = mask_keys_from(s, j);
        assert(out[0] == q[0]);
        assert(j < s.len());
        if is_key_at(s, j) {
            assert(out[0] == 's');
        }
        let rest = mask_keys_from(s, j + 1);
        assert(out == seq![s[j]] + rest);
        assert(rest.subrange(0, q.len() - 1) =~= q.drop_first());
        lemma_keys_copy(s, j + 1, q.drop_first());
        assert(s.subrange(j, j + q.len()) =~= q);
        assert(mask_keys_from(s, j) =~= q + mask_keys_from(s, j + q.len()));
    }
}

proof fn lemma_keys_alnum_run(s: Seq<char>, j: int)
    requires
        0 <= j,
    ensures
        run_len(mask_keys_from(s, j), 0, CharClass::Alnum) <= run_len(s, j, CharClass::Alnum),
    decreases s.len() - j,
{
    lemma_masks();
    if j < s.len() {
        if is_key_at(s, j) {
            lemma_run_bound(s, j + 3, CharClass::Alnum);
            let rest = mask_keys_from(s, j + 3 + run_len(s, j + 3, CharClass::Alnum));
            let out = key_mask() + rest;
            assert(s.subrange(j, j + 3)[0] == s[j] && s.subrange(j, j + 3)[1] == s[j + 1]
                && s.subrange(j, j + 3)[2] == s[j + 2]);
            assert(out.subrange(0, 2) =~= s.subrange(j, j + 2));
            lemma_run_agree(out, 0, s, j, 2, CharClass::Alnum, 0);
        } else {
            lemma_keys_alnum_run(s, j + 1);
            lemma_run_shift(seq![s[j]], mask_keys_from(s, j + 1), 0, CharClass::Alnum);
        }
    }
}

/// The first rule leaves no provider key behind.
pub proof fn lemma_keys_clean(s: Seq<char>, i: int)
    ensures
        no_key(mask_keys_from(s, i)),
    decreases s.len() - i,
{
    lemma_masks();
    if i < 0 || i >= s.len() {
        assert forall|p: int| !#[trigger] is_key_at(mask_keys_from(s, i), p) by {}
    } else if is_key_at(s, i) {
        lemma_run_bound(s, i + 3, CharClass::Alnum);
        let e = i + 3 + run_len(s, i + 3, CharClass::Alnum);
        lemma_keys_clean(s, e);
        let rest = mask_keys_from(s, e);
        let out = key_mask() + rest;
        assert forall|p: int| 0 <= p < key_mask().len() implies !#[trigger] is_key_at(out, p) by {
            if is_key_at(out, p) {
                lemma_first_char(out, "sk-"@, p);
                if p == 0 {
                    assert(!is_alnum(out[3]));
                }
            }
        }
        lemma_no_key_concat(key_mask(), rest);
    } else {
        lemma_keys_clean(s, i + 1);
        let rest = mask_keys_from(s, i + 1);
        let head = seq![s[i]];
        let out = head + rest;
        assert forall|p: int| 0 <= p < head.len() implies !#[trigger] is_key_at(out, p) by {
            if is_key_at(out, p) {
                let q = seq!['k', '-'];
                assert(out.subrange(0, 3) == "sk-"@);
                assert(out.subrange(0, 3)[0] == out[0]);
                assert(out.subrange(0, 3)[1] == out[1]);
                assert(out.subrange(0, 3)[2] == out[2]);
                assert(rest.subrange(0, 2) =~= q);
                lemma_keys_copy(s, i + 1, q);
                let r3 = mask_keys_from(s, i + 3);
                assert(out =~= (head + q) + r3);
                lemma_run_shift(head + q, r3, 0, CharClass::Alnum);
                lemma_keys_alnum_run(s, i + 3);
                assert(s.subrange(i, i + 3) =~= "sk-"@);
                assert(is_key_at(s, i));
            }
        }
        lemma_no_key_concat(head, rest);
    }
}

/// The first rule changes nothing in text without a provider key.
pub proof fn lemma_keys_identity(t: Seq<char>, i: int)
    requires
        no_key(t),
        0 <= i <= t.len(),
    ensures
        mask_keys_from(t, i) == t.subrange(i, t.len() as int),
    decreases t.len() - i,
{
    if i < t.len() {
        assert(!is_key_at(t, i));
        lemma_keys_identity(t, i + 1);
        assert(t.subrange(i, t.len() as int) =~= seq![t[i]] + t.subrange(i + 1, t.len() as int));
    } else {
        assert(t.subrange(i, t.len() as int) =~= Seq::<char>::empty());
    }
}

/// The second rule changes nothing in text without a bearer credential.
pub proof fn lemma_bearer_identity(t: Seq<char>, i: int)
    requires
        no_bearer(t),
        0 <= i <= t.len(),
    ensures
        mask_bearer_from(t, i) == t.subrange(i, t.len() as int),
    decreases t.len() - i,
{
    if i < t.len() {
        assert(!is_bearer_at(t, i));
        lemma_bearer_identity(t, i + 1);
        assert(t.subrange(i, t.len() as int) =~= seq![t[i]] + t.subrange(i + 1, t.len() as int));
    } else {
        assert(t.subrange(i, t.len() as int) =~= Seq::<char>::empty());
    }
}

/// The third rule changes nothing in text whose token runs are all short.
pub proof fn lemma_long_identity(t: Seq<char>, i: int)
    requires
        short_runs(t),
        0 <= i <= t.len(),
    ensures
        mask_long_from(t, i) == t.subrange(i, t.len() as int),
    decreases t.len() - i,
{
    if i < t.len() {
        if is_token_char(t[i]) {
            let k = run_len(t, i, CharClass::Token);
            lemma_run_bound(t, i, CharClass::Token);
            assert(run_len(t, i, CharClass::Token) < 24);
            lemma_long_identity(t, i + k);
            assert(t.subrange(i, t.len() as int) =~= t.subrange(i, i + k) + t.subrange(
                i + k,
                t.len() as int,
            ));
        } else {
            lemma_long_identity(t, i + 1);
            assert(t.subrange(i, t.len() as int) =~= seq![t[i]] + t.subrange(i + 1, t.len() as int));
        }
    } else {
        assert(t.subrange(i, t.len() as int) =~= Seq::<char>::empty());
    }
}


/// A run stops at the end of the text or before a character outside its class.
pub proof fn lemma_run_end(s: Seq<char>, i: int, c: CharClass)
    requires
        0 <= i <= s.len(),
    ensures
        i + run_len(s, i, c) <= s.len(),
        i + run_len(s, i, c) < s.len() ==> !in_class(s[i + run_len(s, i, c)], c),
        forall|j: int| i <= j < i + run_len(s, i, c) ==> in_class(#[trigger] s[j], c),
    decreases s.len() - i,
{
    if i < s.len() && in_class(s[i], c) {
        lemma_run_end(s, i + 1, c);
    }
}

/// Output that begins with characters other than `B` copies them from the input.
proof fn lemma_bearer_copy(v: Seq<char>, j: int, q: Seq<char>)
    requires
        0 <= j <= v.len(),
        q.len() <= mask_bearer_from(v, j).len(),
        mask_bearer_from(v, j).subrange(0, q.len() as int) == q,
        forall|k: int| 0 <= k < q.len() ==> q[k] != 'B',
    ensures
        j + q.len() <= v.len(),
        v.subrange(j, j + q.len()) == q,
        mask_bearer_from(v, j) == q + mask_bearer_from(v, j + q.len()),
    decreases q.len(),
{
    lemma_masks();
    if q.len() == 0 {
        assert(mask_bearer_from(v, j) =~= q + mask_bearer_from(v, j + q.len()));
        assert(v.subrange(j, j) =~= q);
    } else {
        let out = mask_bearer_from(v, j);
        assert(out[0] == q[0]);
        assert(j < v.len());
        if is_bearer_at(v, j) {
            assert(out[0] == 'B');
        }
        let rest = mask_bearer_from(v, j + 1);
        assert(out == seq![v[j]] + rest);
        assert(rest.subrange(0, q.len() - 1) =~= q.drop_first());
        lemma_bearer_copy(v, j + 1, q.drop_first());
        assert(v.subrange(j, j + q.len()) =~= q);
        assert(mask_bearer_from(v, j) =~= q + mask_bearer_from(v, j + q.len()));
    }
}

/// The second rule does not lengthen a run of letters and digits, nor of token characters.
proof fn lemma_bearer_runs(v: Seq<char>, j: int, c: CharClass)
    requires
        0 <= j,
        c == CharClass::Alnum || c == CharClass::Token,
    ensures
        run_len(mask_bearer_from(v, j), 0, c) <= run_len(v, j, c),
    decreases v.len() - j,
{
    lemma_masks();
    if j < v.len() {
        if is_bearer_at(v, j) {
            lemma_run_bound(v, j + 6, CharClass::Space);
            lemma_run_bound(v, j + 6 + run_len(v, j + 6, CharClass::Space), CharClass::Token);
            let rest = mask_bearer_from(v, bearer_end(v, j));
            let out = bearer_mask() + rest;
            assert(out.subrange(0, 6) =~= bearer_mask().subrange(0, 6));
            assert(v.subrange(j, j + 6) == "Bearer"@);
            assert(is_space(v[j + 6]));
            assert(out[6] == ' ');
            lemma_run_agree(out, 0, v, j, 6, c, 0);
        } else {
            lemma_bearer_runs(v, j + 1, c);
            lemma_run_shift(seq![v[j]], mask_bearer_from(v, j + 1), 0, c);
        }
    }
}

/// The second rule copies white space through.
proof fn lemma_bearer_spaces(v: Seq<char>, j: int)
    requires
        0 <= j <= v.len(),
    ensures
        j + run_len(v, j, CharClass::Space) <= v.len(),
        mask_bearer_from(v, j) == v.subrange(j, j + run_len(v, j, CharClass::Space))
            + mask_bearer_from(v, j + run_len(v, j, CharClass::Space)),
    decreases v.len() - j,
{
    lemma_masks();
    lemma_run_bound(v, j, CharClass::Space);
    if j < v.len() && is_space(v[j]) {
        if is_bearer_at(v, j) {
            lemma_first_char(v, "Bearer"@, j);
        }
        lemma_bearer_spaces(v, j + 1);
        let w = run_len(v, j, CharClass::Space);
        assert(mask_bearer_from(v, j) == seq![v[j]] + mask_bearer_from(v, j + 1));
        assert(v.subrange(j, j + w) =~= seq![v[j]] + v.subrange(j + 1, j + w));
        assert(mask_bearer_from(v, j) =~= v.subrange(j, j + w) + mask_bearer_from(v, j + w));
    } else {
        assert(mask_bearer_from(v, j) =~= v.subrange(j, j) + mask_bearer_from(v, j));
    }
}

/// What the second rule gives from a position that does not hold white space does not begin
/// with white space.
proof fn lemma_bearer_first(v: Seq<char>, m: int)
    requires
        0 <= m,
        m < v.len() ==> !is_space(v[m]),
    ensures
        mask_bearer_from(v, m).len() == 0 || !is_space(mask_bearer_from(v, m)[0]),
{
    lemma_masks();
}

/// The second rule keeps text free of provider keys.
pub proof fn lemma_bearer_keeps_keys_out(v: Seq<char>, i: int)
    requires
        no_key(v),
    ensures
        no_key(mask_bearer_from(v, i)),
    decreases v.len() - i,
{
    lemma_masks();
    if i < 0 || i >= v.len() {
        assert forall|p: int| !#[trigger] is_key_at(mask_bearer_from(v, i), p) by {}
    } else if is_bearer_at(v, i) {
        lemma_run_bound(v, i + 6, CharClass::Space);
        lemma_run_bound(v, i + 6 + run_len(v, i + 6, CharClass::Space), CharClass::Token);
        let e = bearer_end(v, i);
        lemma_bearer_keeps_keys_out(v, e);
        let rest = mask_bearer_from(v, e);
        let out = bearer_mask() + rest;
        assert forall|p: int| 0 <= p < bearer_mask().len() implies !#[trigger] is_key_at(out, p) by {
            if is_key_at(out, p) {
                lemma_first_char(out, "sk-"@, p);
            }
        }
        lemma_no_key_concat(bearer_mask(), rest);
    } else {
        lemma_bearer_keeps_keys_out(v, i + 1);
        let rest = mask_bearer_from(v, i + 1);
        let head = seq![v[i]];
        let out = head + rest;
        assert forall|p: int| 0 <= p < head.len() implies !#[trigger] is_key_at(out, p) by {
            if is_key_at(out, p) {
                let q = seq!['k', '-'];
                assert(out.subrange(0, 3) == "sk-"@);
                assert(out.subrange(0, 3)[0] == out[0]);
                assert(out.subrange(0, 3)[1] == out[1]);
                assert(out.subrange(0, 3)[2] == out[2]);
                assert(rest.subrange(0, 2) =~= q);
                lemma_bearer_copy(v, i + 1, q);
                let r3 = mask_bearer_from(v, i + 3);
                assert(out =~= (head + q) + r3);
                lemma_run_shift(head + q, r3, 0, CharClass::Alnum);
                lemma_bearer_runs(v, i + 3, CharClass::Alnum);
                assert(v.subrange(i, i + 3) =~= "sk-"@);
                assert(is_key_at(v, i));
            }
        }
        lemma_no_key_concat(head, rest);
    }
}

/// The second rule leaves no bearer credential behind.
pub proof fn lemma_bearer_clean(v: Seq<char>, i: int)
    ensures
        no_bearer(mask_bearer_from(v, i)),
    decreases v.len() - i,
{
    lemma_masks();
    if i < 0 || i >= v.len() {
        assert forall|p: int| !#[trigger] is_bearer_at(mask_bearer_from(v, i), p) by {}
    } else if is_bearer_at(v, i) {
        lemma_run_bound(v, i + 6, CharClass::Space);
        lemma_run_bound(v, i + 6 + run_len(v, i + 6, CharClass::Space), CharClass::Token);
        let e = bearer_end(v, i);
        lemma_bearer_clean(v, e);
        let rest = mask_bearer_from(v, e);
        let out = bearer_mask() + rest;
        assert forall|p: int| 0 <= p < bearer_mask().len() implies !#[trigger] is_bearer_at(out, p) by {
            if is_bearer_at(out, p) {
                lemma_first_char(out, "Bearer"@, p);
                assert(p == 0);
                assert(out[6] == ' ' && out[7] == '*');
                assert(run_len(out, 7, CharClass::Space) == 0);
                assert(run_len(out, 6, CharClass::Space) == 1);
                assert(run_len(out, 7, CharClass::Token) == 0);
            }
        }
        lemma_no_bearer_concat(bearer_mask(), rest);
    } else {
        lemma_bearer_clean(v, i + 1);
        let rest = mask_bearer_from(v, i + 1);
        let head = seq![v[i]];
        let out = head + rest;
        assert forall|p: int| 0 <= p < head.len() implies !#[trigger] is_bearer_at(out, p) by {
            if is_bearer_at(out, p) {
                reveal_strlit("Bearer");
                let q = seq!['e', 'a', 'r', 'e', 'r'];
                assert(out.subrange(0, 6) == "Bearer"@);
                assert forall|k: int| 0 <= k < 6 implies out[k] == #[trigger] "Bearer"@[k] by {
                    assert(out.subrange(0, 6)[k] == out[k]);
                }
                assert("Bearer"@ =~= seq!['B', 'e', 'a', 'r', 'e', 'r']);
                assert forall|k: int| 0 <= k < 5 implies rest[k] == #[trigger] q[k] by {
                    assert(out[k + 1] == "Bearer"@[k + 1]);
                    assert(out[k + 1] == rest[k]);
                }
                assert(rest.subrange(0, 5) =~= q);
                lemma_bearer_copy(v, i + 1, q);
                let r6 = mask_bearer_from(v, i + 6);
                let head6 = head + q;
                assert(out =~= head6 + r6);
                assert(head6 =~= "Bearer"@);
                lemma_bearer_spaces(v, i + 6);
                let w = run_len(v, i + 6, CharClass::Space);
                let m = i + 6 + w;
                let tail = mask_bearer_from(v, m);
                lemma_run_end(v, i + 6, CharClass::Space);
                lemma_bearer_first(v, m);
                assert(r6 == v.subrange(i + 6, m) + tail);
                assert(r6.subrange(0, w as int) =~= v.subrange(i + 6, m));
                lemma_run_agree(r6, 0, v, i + 6, w as int, CharClass::Space, 0);
                lemma_run_shift(head6, r6, 0, CharClass::Space);
                assert(out =~= (head6 + v.subrange(i + 6, m)) + tail);
                lemma_run_shift(head6 + v.subrange(i + 6, m), tail, 0, CharClass::Token);
                lemma_bearer_runs(v, m, CharClass::Token);
                assert(v.subrange(i, i + 6) =~= "Bearer"@);
                assert(is_bearer_at(v, i));
            }
        }
        lemma_no_bearer_concat(head, rest);
    }
}


/// The third rule starts its output with the character it starts from.
proof fn lemma_long_first(t: Seq<char>, m: int)
    requires
        0 <= m,
    ensures
        m >= t.len() ==> mask_long_from(t, m).len() == 0,
        m < t.len() ==> mask_long_from(t, m).len() > 0 && mask_long_from(t, m)[0] == t[m],
{
    if m < t.len() && is_token_char(t[m]) {
        lemma_run_end(t, m, CharClass::Token);
        let k = run_len(t, m, CharClass::Token);
        let run = t.subrange(m, m + k);
        assert(run[0] == t[m]);
        assert(masked_run(run)[0] == run[0]);
    }
}

/// The piece that the third rule puts out for the token run at `i`, and what follows it.
proof fn lemma_long_piece(t: Seq<char>, i: int)
    requires
        0 <= i < t.len(),
        is_token_char(t[i]),
    ensures
        ({
            let k = run_len(t, i, CharClass::Token);
            let piece = masked_run(t.subrange(i, i + k));
            let rest = mask_long_from(t, i + k);
            &&& i + k <= t.len()
            &&& k >= 1
            &&& mask_long_from(t, i) == piece + rest
            &&& rest.len() == 0 || !is_token_char(rest[0])
            &&& piece.len() <= k
            &&& piece.len() <= 23 || piece.len() == 10
            &&& k < 24 ==> piece == t.subrange(i, i + k)
            &&& k >= 24 ==> piece.len() == 10 && (forall|j: int| 3 <= j < 7 ==> piece[j] == '*')
                && (forall|j: int| 0 <= j < 3 ==> is_token_char(#[trigger] piece[j]))
                && (forall|j: int| 7 <= j < 10 ==> is_token_char(#[trigger] piece[j]))
        }),
{
    lemma_masks();
    lemma_run_end(t, i, CharClass::Token);
    let k = run_len(t, i, CharClass::Token);
    let run = t.subrange(i, i + k);
    lemma_long_first(t, i + k);
    if k >= 24 {
        let piece = masked_run(run);
        assert forall|j: int| 0 <= j < 3 implies is_token_char(#[trigger] piece[j]) by {
            assert(piece[j] == run[j]);
            assert(run[j] == t[i + j]);
        }
        assert forall|j: int| 7 <= j < 10 implies is_token_char(#[trigger] piece[j]) by {
            assert(piece[j] == run[k - 10 + j]);
            assert(run[k - 10 + j] == t[i + k - 10 + j]);
        }
    }
}

proof fn lemma_short_concat(a: Seq<char>, b: Seq<char>)
    requires
        short_runs(b),
        forall|p: int| 0 <= p < a.len() ==> #[trigger] run_len(a + b, p, CharClass::Token) < 24,
    ensures
        short_runs(a + b),
{
    assert forall|i: int| 0 <= i < (a + b).len() implies #[trigger] run_len(a + b, i, CharClass::Token)
        < 24 by {
        if i >= a.len() {
            lemma_run_shift(a, b, i - a.len(), CharClass::Token);
        }
    }
}

/// The third rule leaves no run of 24 or more token characters.
pub proof fn lemma_long_clean(t: Seq<char>, i: int)
    ensures
        short_runs(mask_long_from(t, i)),
    decreases t.len() - i,
{
    if i < 0 || i >= t.len() {
    } else if is_token_char(t[i]) {
        lemma_long_piece(t, i);
        let k = run_len(t, i, CharClass::Token);
        let piece = masked_run(t.subrange(i, i + k));
        let rest = mask_long_from(t, i + k);
        lemma_long_clean(t, i + k);
        let out = piece + rest;
        assert forall|p: int| 0 <= p < piece.len() implies #[trigger] run_len(out, p, CharClass::Token)
            < 24 by {
            assert(out.subrange(0, piece.len() as int) =~= piece.subrange(0, piece.len() as int));
            lemma_run_agree(out, 0, piece, 0, piece.len() as int, CharClass::Token, p);
            lemma_run_bound(piece, p, CharClass::Token);
        }
        lemma_short_concat(piece, rest);
    } else {
        lemma_long_clean(t, i + 1);
        let rest = mask_long_from(t, i + 1);
        let head = seq![t[i]];
        assert forall|p: int| 0 <= p < head.len() implies #[trigger] run_len(head + rest, p, CharClass::Token)
            < 24 by {}
        lemma_short_concat(head, rest);
    }
}

/// The third rule does not lengthen a run of token characters.
proof fn lemma_long_token_run(t: Seq<char>, m: int)
    requires
        0 <= m,
    ensures
        run_len(mask_long_from(t, m), 0, CharClass::Token) <= run_len(t, m, CharClass::Token),
{
    if m < t.len() {
        if is_token_char(t[m]) {
            lemma_long_piece(t, m);
            let k = run_len(t, m, CharClass::Token);
            let piece = masked_run(t.subrange(m, m + k));
            let out = mask_long_from(t, m);
            assert(out.subrange(0, piece.len() as int) =~= piece.subrange(0, piece.len() as int));
            lemma_run_agree(out, 0, piece, 0, piece.len() as int, CharClass::Token, 0);
            lemma_run_bound(piece, 0, CharClass::Token);
        } else {
            lemma_long_first(t, m);
        }
    } else {
        lemma_long_first(t, m);
    }
}

/// The third rule copies white space through.
proof fn lemma_long_spaces(t: Seq<char>, j: int)
    requires
        0 <= j <= t.len(),
    ensures
        j + run_len(t, j, CharClass::Space) <= t.len(),
        mask_long_from(t, j) == t.subrange(j, j + run_len(t, j, CharClass::Space))
            + mask_long_from(t, j + run_len(t, j, CharClass::Space)),
    decreases t.len() - j,
{
    lemma_run_bound(t, j, CharClass::Space);
    if j < t.len() && is_space(t[j]) {
        lemma_long_spaces(t, j + 1);
        let w = run_len(t, j, CharClass::Space);
        assert(mask_long_from(t, j) == seq![t[j]] + mask_long_from(t, j + 1));
        assert(t.subrange(j, j + w) =~= seq![t[j]] + t.subrange(j + 1, j + w));
        assert(mask_long_from(t, j) =~= t.subrange(j, j + w) + mask_long_from(t, j + w));
    } else {
        assert(mask_long_from(t, j) =~= t.subrange(j, j) + mask_long_from(t, j));
    }
}

/// Characters of an occurrence of a pattern made of token characters are token characters.
proof fn lemma_occurs_tokens(t: Seq<char>, pat: Seq<char>, p: int, j: int)
    requires
        occurs_at(t, pat, p),
        forall|k: int| 0 <= k < pat.len() ==> is_token_char(#[trigger] pat[k]),
        p <= j < p + pat.len(),
    ensures
        is_token_char(t[j]),
{
    assert(t.subrange(p, p + pat.len())[j - p] == t[j]);
    assert(is_token_char(pat[j - p]));
}

/// The third rule keeps text free of provider keys.
pub proof fn lemma_long_keeps_keys_out(t: Seq<char>, i: int)
    requires
        no_key(t),
    ensures
        no_key(mask_long_from(t, i)),
    decreases t.len() - i,
{
    lemma_masks();
    assert forall|k: int| 0 <= k < 3 implies is_token_char(#[trigger] "sk-"@[k]) by {}
    if i < 0 || i >= t.len() {
        assert forall|p: int| !#[trigger] is_key_at(mask_long_from(t, i), p) by {}
    } else if is_token_char(t[i]) {
        lemma_long_piece(t, i);
        lemma_run_end(t, i, CharClass::Token);
        let k = run_len(t, i, CharClass::Token) as int;
        let piece = masked_run(t.subrange(i, i + k));
        let rest = mask_long_from(t, i + k);
        lemma_long_keeps_keys_out(t, i + k);
        let out = piece + rest;
        assert forall|p: int| 0 <= p < piece.len() implies !#[trigger] is_key_at(out, p) by {
            if is_key_at(out, p) {
                if p + 3 > piece.len() {
                    lemma_occurs_tokens(out, "sk-"@, p, piece.len() as int);
                }
                if k < 24 {
                    assert(out.subrange(p, p + 3) =~= t.subrange(i + p, i + p + 3));
                    assert(out.subrange(p + 3, k) =~= t.subrange(i + p + 3, i + k));
                    lemma_run_agree(out, p + 3, t, i + p + 3, k - p - 3, CharClass::Alnum, 0);
                    assert(is_key_at(t, i + p));
                } else {
                    if 1 <= p <= 6 {
                        let j = if p <= 3 { 3 } else { p };
                        lemma_occurs_tokens(out, "sk-"@, p, j);
                    } else if p == 0 {
                        assert(!is_alnum(out[3]));
                    } else {
                        assert(p + 3 == 10);
                        assert(out.len() == 10 || !is_alnum(out[10]));
                    }
                }
            }
        }
        lemma_no_key_concat(piece, rest);
    } else {
        lemma_long_keeps_keys_out(t, i + 1);
        let rest = mask_long_from(t, i + 1);
        let head = seq![t[i]];
        assert forall|p: int| 0 <= p < head.len() implies !#[trigger] is_key_at(head + rest, p) by {
            if is_key_at(head + rest, p) {
                lemma_occurs_tokens(head + rest, "sk-"@, 0, 0);
            }
        }
        lemma_no_key_concat(head, rest);
    }
}


/// The third rule keeps text free of bearer credentials.
pub proof fn lemma_long_keeps_bearers_out(t: Seq<char>, i: int)
    requires
        no_bearer(t),
    ensures
        no_bearer(mask_long_from(t, i)),
    decreases t.len() - i,
{
    lemma_masks();
    if i < 0 || i >= t.len() {
        assert forall|p: int| !#[trigger] is_bearer_at(mask_long_from(t, i), p) by {}
    } else if is_token_char(t[i]) {
        lemma_long_piece(t, i);
        lemma_run_end(t, i, CharClass::Token);
        let k = run_len(t, i, CharClass::Token) as int;
        let piece = masked_run(t.subrange(i, i + k));
        let rest = mask_long_from(t, i + k);
        lemma_long_keeps_bearers_out(t, i + k);
        let out = piece + rest;
        assert forall|p: int| 0 <= p < piece.len() implies !#[trigger] is_bearer_at(out, p) by {
            if is_bearer_at(out, p) {
                if p + 6 > piece.len() {
                    lemma_occurs_tokens(out, "Bearer"@, p, piece.len() as int);
                }
                if k < 24 {
                    if p + 6 < k {
                        assert(out[p + 6] == t[i + p + 6]);
                        assert(!is_space(out[p + 6]));
                    } else {
                        assert(out.subrange(p, p + 6) =~= t.subrange(i + p, i + p + 6));
                        lemma_long_spaces(t, i + k);
                        let w = run_len(t, i + k, CharClass::Space) as int;
                        let m = i + k + w;
                        let tail = mask_long_from(t, m);
                        lemma_run_end(t, i + k, CharClass::Space);
                        lemma_long_first(t, m);
                        assert(rest == t.subrange(i + k, m) + tail);
                        assert(rest.subrange(0, w) =~= t.subrange(i + k, m));
                        lemma_run_agree(rest, 0, t, i + k, w, CharClass::Space, 0);
                        lemma_run_shift(piece, rest, 0, CharClass::Space);
                        assert(out =~= (piece + t.subrange(i + k, m)) + tail);
                        lemma_run_shift(piece + t.subrange(i + k, m), tail, 0, CharClass::Token);
                        lemma_long_token_run(t, m);
                        assert(is_bearer_at(t, i + p));
                    }
                } else {
                    let j = if p <= 3 { 3 } else { p };
                    lemma_occurs_tokens(out, "Bearer"@, p, j);
                }
            }
        }
        lemma_no_bearer_concat(piece, rest);
    } else {
        lemma_long_keeps_bearers_out(t, i + 1);
        let rest = mask_long_from(t, i + 1);
        let head = seq![t[i]];
        assert forall|p: int| 0 <= p < head.len() implies !#[trigger] is_bearer_at(head + rest, p) by {
            if is_bearer_at(head + rest, p) {
                lemma_occurs_tokens(head + rest, "Bearer"@, 0, 0);
            }
        }
        lemma_no_bearer_concat(head, rest);
    }
}

/// Text whose characters from `i` on are `n` token characters has a run of at least `n` there.
proof fn lemma_tokens_run(t: Seq<char>, i: int, n: int)
    requires
        0 <= i,
        0 <= n,
        i + n <= t.len(),
        forall|j: int| i <= j < i + n ==> is_token_char(#[trigger] t[j]),
    ensures
        run_len(t, i, CharClass::Token) >= n,
    decreases n,
{
    if n > 0 {
        lemma_tokens_run(t, i + 1, n - 1);
    }
}

/// Redacting text that is already redacted changes nothing.
pub proof fn redaction_idempotent(s: Seq<char>)
    ensures
        redacted(redacted(s)) == redacted(s),
{
    let v = mask_keys(s);
    lemma_keys_clean(s, 0);
    let u = mask_bearer(v);
    lemma_bearer_keeps_keys_out(v, 0);
    lemma_bearer_clean(v, 0);
    let r = mask_long(u);
    lemma_long_keeps_keys_out(u, 0);
    lemma_long_keeps_bearers_out(u, 0);
    lemma_long_clean(u, 0);
    assert(r.subrange(0, r.len() as int) =~= r);
    lemma_keys_identity(r, 0);
    lemma_bearer_identity(r, 0);
    lemma_long_identity(r, 0);
}

/// No run of 24 or more token characters survives redaction, so a token of that length (a
/// 30-character key, say) never occurs in the output, whatever surrounds it in the input.
pub proof fn redaction_hides_long_tokens(s: Seq<char>, token: Seq<char>)
    requires
        token.len() >= 24,
        forall|j: int| 0 <= j < token.len() ==> is_token_char(#[trigger] token[j]),
    ensures
        short_runs(redacted(s)),
        !contains_seq(redacted(s), token),
{
    let u = mask_bearer(mask_keys(s));
    lemma_long_clean(u, 0);
    let r = redacted(s);
    if contains_seq(r, token) {
        let i = choose|i: int| occurs_at(r, token, i);
        assert forall|j: int| i <= j < i + token.len() implies is_token_char(#[trigger] r[j]) by {
            assert(r.subrange(i, i + token.len())[j - i] == r[j]);
        }
        lemma_tokens_run(r, i, token.len() as int);
    }
}

} // verus!
