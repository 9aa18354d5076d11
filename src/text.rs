use vstd::prelude::*;

verus! {

/// Relies on `String::push`: it appends `ch` to the end of the string.
pub assume_specification[ String::push ](s: &mut String, ch: char)
    ensures
        final(s)@ == old(s)@.push(ch),
;

/// ASCII letter or digit.
pub open spec fn is_alnum(c: char) -> bool {
    ('a' <= c && c <= 'z') || ('A' <= c && c <= 'Z') || ('0' <= c && c <= '9')
}

/// A character that may occur in an access token: ASCII letter or digit, `_` or `-`.
pub open spec fn is_token_char(c: char) -> bool {
    is_alnum(c) || c == '_' || c == '-'
}

/// The Unicode `White_Space` property.
pub open spec fn is_space(c: char) -> bool {
    ('\u{9}' <= c && c <= '\u{d}') || c == ' ' || c == '\u{85}' || c == '\u{a0}' || c == '\u{1680}'
        || ('\u{2000}' <= c && c <= '\u{200a}') || c == '\u{2028}' || c == '\u{2029}' || c
        == '\u{202f}' || c == '\u{205f}' || c == '\u{3000}'
}

pub fn alnum(c: char) -> (r: bool)
    ensures
        r == is_alnum(c),
{
    ('a' <= c && c <= 'z') || ('A' <= c && c <= 'Z') || ('0' <= c && c <= '9')
}

pub fn token_char(c: char) -> (r: bool)
    ensures
        r == is_token_char(c),
{
    alnum(c) || c == '_' || c == '-'
}

pub fn space(c: char) -> (r: bool)
    ensures
        r == is_space(c),
{
    ('\u{9}' <= c && c <= '\u{d}') || c == ' ' || c == '\u{85}' || c == '\u{a0}' || c == '\u{1680}'
        || ('\u{2000}' <= c && c <= '\u{200a}') || c == '\u{2028}' || c == '\u{2029}' || c
        == '\u{202f}' || c == '\u{205f}' || c == '\u{3000}'
}

/// The three classes of characters that the redaction rules look for runs of.
#[derive(Clone, Copy)]
pub enum CharClass {
    Alnum,
    Token,
    Space,
}

pub open spec fn in_class(c: char, k: CharClass) -> bool {
    match k {
        CharClass::Alnum => is_alnum(c),
        CharClass::Token => is_token_char(c),
        CharClass::Space => is_space(c),
    }
}

/// The number of characters of class `k` in a row from position `i` of `s`.
pub open spec fn run_len(s: Seq<char>, i: int, k: CharClass) -> nat
    decreases s.len() - i,
{
    if 0 <= i < s.len() && in_class(s[i], k) {
        1 + run_len(s, i + 1, k)
    } else {
        0
    }
}

pub proof fn lemma_run_bound(s: Seq<char>, i: int, k: CharClass)
    requires
        0 <= i <= s.len(),
    ensures
        i + run_len(s, i, k) <= s.len(),
    decreases s.len() - i,
{
    if i < s.len() && in_class(s[i], k) {
        lemma_run_bound(s, i + 1, k);
    }
}

pub fn class_member(c: char, k: CharClass) -> (r: bool)
    ensures
        r == in_class(c, k),
{
    match k {
        CharClass::Alnum => alnum(c),
        CharClass::Token => token_char(c),
        CharClass::Space => space(c),
    }
}

/// The number of characters of class `k` in a row from position `i`.
pub fn run_at(cs: &Vec<char>, i: usize, k: CharClass) -> (r: usize)
    requires
        i <= cs@.len(),
    ensures
        r == run_len(cs@, i as int, k),
        i + r <= cs@.len(),
{
    let mut j: usize = i;
    while j < cs.len() && class_member(cs[j], k)
        invariant
            i <= j <= cs@.len(),
            run_len(cs@, i as int, k) == (j - i) + run_len(cs@, j as int, k),
        decreases cs@.len() - j,
    {
        j += 1;
    }
    j - i
}


/// Number of white-space characters in a row ending just before position `j`.
pub open spec fn space_suffix(s: Seq<char>, j: int) -> nat
    decreases j,
{
    if 0 < j <= s.len() && is_space(s[j - 1]) {
        1 + space_suffix(s, j - 1)
    } else {
        0
    }
}

/// `s` without white space at either end.
pub open spec fn trim_seq(s: Seq<char>) -> Seq<char> {
    let a = run_len(s, 0, CharClass::Space);
    if a == s.len() {
        Seq::empty()
    } else {
        s.subrange(a as int, s.len() - space_suffix(s, s.len() as int))
    }
}

/// The characters of `cs` without white space at either end.
pub fn trim_chars(cs: &Vec<char>) -> (r: Vec<char>)
    ensures
        r@ == trim_seq(cs@),
{
    let a = run_at(cs, 0, CharClass::Space);
    if a == cs.len() {
        return Vec::new();
    }
    let mut b: usize = cs.len();
    while b > 0 && space(cs[b - 1])
        invariant
            b <= cs@.len(),
            space_suffix(cs@, cs@.len() as int) == (cs@.len() - b) + space_suffix(cs@, b as int),
        decreases b,
    {
        b -= 1;
    }
    proof {
        lemma_run_bound(cs@, 0, CharClass::Space);
        lemma_no_overlap(cs@);
    }
    let mut out: Vec<char> = Vec::new();
    let mut i: usize = a;
    while i < b
        invariant
            a <= i <= b,
            b <= cs@.len(),
            out@ == cs@.subrange(a as int, i as int),
        decreases b - i,
    {
        out.push(cs[i]);
        i += 1;
        assert(out@ =~= cs@.subrange(a as int, i as int));
    }
    out
}

/// When `s` is not all white space, its leading and trailing white space do not meet.
pub proof fn lemma_no_overlap(s: Seq<char>)
    requires
        run_len(s, 0, CharClass::Space) < s.len(),
    ensures
        run_len(s, 0, CharClass::Space) + space_suffix(s, s.len() as int) <= s.len(),
{
    let a = run_len(s, 0, CharClass::Space);
    lemma_run_prefix(s, 0);
    lemma_suffix_prefix(s, s.len() as int, a as int);
}

/// The run from `i` ends before a character outside the class, and all it covers is inside.
pub proof fn lemma_run_prefix(s: Seq<char>, i: int)
    requires
        0 <= i <= s.len(),
    ensures
        i + run_len(s, i, CharClass::Space) < s.len() ==> !is_space(s[i + run_len(s, i, CharClass::Space)]),
        forall|j: int| i <= j < i + run_len(s, i, CharClass::Space) ==> is_space(s[j]),
    decreases s.len() - i,
{
    if i < s.len() && is_space(s[i]) {
        lemma_run_prefix(s, i + 1);
    }
}

/// A run of white space that ends at `j` cannot pass over a character at `a` that is not
/// white space.
pub proof fn lemma_suffix_prefix(s: Seq<char>, j: int, a: int)
    requires
        0 <= a < j <= s.len(),
        !is_space(s[a]),
    ensures
        j - space_suffix(s, j) > a,
    decreases j,
{
    if is_space(s[j - 1]) {
        if j - 1 > a {
            lemma_suffix_prefix(s, j - 1, a);
        }
    }
}

/// `s` without white space at either end.
pub fn trim(s: &str) -> (r: String)
    ensures
        r@ == trim_seq(s@),
{
    let cs = chars_of(s);
    let t = trim_chars(&cs);
    string_of(&t)
}

/// Pieces of `s` between the occurrences of `d`, taken leftmost first without overlap; the
/// current piece began at `start` and the search stands at `i`.
pub open spec fn split_acc(s: Seq<char>, d: Seq<char>, start: int, i: int) -> Seq<Seq<char>>
    decreases s.len() - i,
    when d.len() > 0
{
    if i + d.len() > s.len() {
        seq![s.subrange(start, s.len() as int)]
    } else if occurs_at(s, d, i) {
        seq![s.subrange(start, i)] + split_acc(s, d, i + d.len(), i + d.len())
    } else {
        split_acc(s, d, start, i + 1)
    }
}

/// `s` cut at every occurrence of the non-empty `d`.
pub open spec fn split_seq(s: Seq<char>, d: Seq<char>) -> Seq<Seq<char>> {
    split_acc(s, d, 0, 0)
}

pub open spec fn views(v: Seq<String>) -> Seq<Seq<char>> {
    v.map_values(|x: String| x@)
}

/// The pieces of `s` between the occurrences of `d`.
pub fn split_text(s: &str, d: &str) -> (r: Vec<String>)
    requires
        d@.len() > 0,
    ensures
        views(r@) == split_seq(s@, d@),
{
    let cs = chars_of(s);
    let dc = chars_of(d);
    let mut out: Vec<String> = Vec::new();
    let mut start: usize = 0;
    let mut i: usize = 0;
    while i <= cs.len() && dc.len() <= cs.len() - i
        invariant
            cs@ == s@,
            dc@ == d@,
            d@.len() > 0,
            start <= i <= cs@.len(),
            views(out@) + split_acc(s@, d@, start as int, i as int) == split_seq(s@, d@),
        decreases cs@.len() - i,
    {
        let ghost before = views(out@);
        let ghost st0 = start as int;
        let ghost i0 = i as int;
        if matches_at(&cs, &dc, i) {
            let mut piece: Vec<char> = Vec::new();
            push_slice(&mut piece, &cs, start, i);
            let p = string_of(&piece);
            out.push(p);
            assert(views(out@) =~= before.push(s@.subrange(start as int, i as int)));
            i = i + dc.len();
            start = i;
            assert(views(out@) + split_acc(s@, d@, start as int, i as int) =~= before
                + split_acc(s@, d@, st0, i0));
        } else {
            i += 1;
        }
    }
    let mut piece: Vec<char> = Vec::new();
    push_slice(&mut piece, &cs, start, cs.len());
    let ghost before = views(out@);
    out.push(string_of(&piece));
    assert(views(out@) =~= before + split_acc(s@, d@, start as int, i as int));
    out
}

/// Appends `cs[from..to]` to `out`.
pub fn push_slice(out: &mut Vec<char>, cs: &Vec<char>, from: usize, to: usize)
    requires
        from <= to <= cs@.len(),
    ensures
        final(out)@ == old(out)@ + cs@.subrange(from as int, to as int),
{
    let mut i: usize = from;
    while i < to
        invariant
            from <= i <= to,
            to <= cs@.len(),
            out@ == old(out)@ + cs@.subrange(from as int, i as int),
        decreases to - i,
    {
        out.push(cs[i]);
        i += 1;
        assert(out@ =~= old(out)@ + cs@.subrange(from as int, i as int));
    }
}

/// The characters of `s`, in order.
pub fn chars_of(s: &str) -> (r: Vec<char>)
    ensures
        r@ == s@,
{
    let mut r: Vec<char> = Vec::new();
    for c in it: s.chars()
        invariant
            it.seq() == s@,
            r@ == s@.subrange(0, it.index() as int),
    {
        r.push(c);
    }
    assert(r@ =~= s@);
    r
}

/// A string holding exactly the given characters.
pub fn string_of(cs: &Vec<char>) -> (r: String)
    ensures
        r@ == cs@,
{
    let mut r = String::new();
    let mut i: usize = 0;
    while i < cs.len()
        invariant
            i <= cs@.len(),
            r@ == cs@.subrange(0, i as int),
        decreases cs@.len() - i,
    {
        r.push(cs[i]);
        i += 1;
        assert(r@ =~= cs@.subrange(0, i as int));
    }
    assert(cs@.subrange(0, cs@.len() as int) =~= cs@);
    r
}

/// Appends the characters of `s` to `out`.
pub fn push_str(out: &mut String, s: &str)
    ensures
        final(out)@ == old(out)@ + s@,
{
    let cs = chars_of(s);
    let mut i: usize = 0;
    while i < cs.len()
        invariant
            cs@ == s@,
            i <= cs@.len(),
            out@ == old(out)@ + cs@.subrange(0, i as int),
        decreases cs@.len() - i,
    {
        out.push(cs[i]);
        i += 1;
        assert(out@ =~= old(out)@ + cs@.subrange(0, i as int));
    }
    assert(cs@.subrange(0, cs@.len() as int) =~= cs@);
}

/// Whether two strings hold the same characters.
pub fn same_text(a: &str, b: &str) -> (r: bool)
    ensures
        r == (a@ == b@),
{
    let x = chars_of(a);
    let y = chars_of(b);
    if x.len() != y.len() {
        return false;
    }
    let mut i: usize = 0;
    while i < x.len()
        invariant
            x@ == a@,
            y@ == b@,
            x@.len() == y@.len(),
            i <= x@.len(),
            forall|j: int| 0 <= j < i ==> x@[j] == y@[j],
        decreases x@.len() - i,
    {
        if x[i] != y[i] {
            return false;
        }
        i += 1;
    }
    assert(x@ =~= y@);
    true
}

/// `p` is a prefix of `s`.
pub open spec fn starts_with(s: Seq<char>, p: Seq<char>) -> bool {
    p.len() <= s.len() && s.subrange(0, p.len() as int) == p
}

/// `p` occurs in `s` at position `i`.
pub open spec fn occurs_at(s: Seq<char>, p: Seq<char>, i: int) -> bool {
    0 <= i && i + p.len() <= s.len() && s.subrange(i, i + p.len()) == p
}

/// `p` occurs somewhere in `s`.
pub open spec fn contains_seq(s: Seq<char>, p: Seq<char>) -> bool {
    exists|i: int| occurs_at(s, p, i)
}

/// Whether `p` occurs in `s` at position `i` (characters).
pub fn matches_at(s: &Vec<char>, p: &Vec<char>, i: usize) -> (r: bool)
    ensures
        r == occurs_at(s@, p@, i as int),
{
    if i > s.len() || p.len() > s.len() - i {
        return false;
    }
    let n = s.len();
    let mut j: usize = 0;
    while j < p.len()
        invariant
            n == s@.len(),
            i + p@.len() <= s@.len(),
            j <= p@.len(),
            forall|k: int| 0 <= k < j ==> s@[i + k] == p@[k],
        decreases p@.len() - j,
    {
        assert(i + j < s@.len());
        if s[i + j] != p[j] {
            assert(s@.subrange(i as int, i + p@.len())[j as int] != p@[j as int]);
            return false;
        }
        j += 1;
    }
    assert(s@.subrange(i as int, i + p@.len()) =~= p@);
    true
}

/// Whether `p` occurs anywhere in `s`.
pub fn contains(s: &str, p: &str) -> (r: bool)
    ensures
        r == contains_seq(s@, p@),
{
    let sc = chars_of(s);
    let pc = chars_of(p);
    let mut i: usize = 0;
    while i < sc.len()
        invariant
            sc@ == s@,
            pc@ == p@,
            i <= sc@.len(),
            forall|k: int| 0 <= k < i ==> !occurs_at(s@, p@, k),
        decreases sc@.len() - i,
    {
        if matches_at(&sc, &pc, i) {
            return true;
        }
        i += 1;
    }
    if matches_at(&sc, &pc, i) {
        return true;
    }
    assert forall|k: int| !occurs_at(s@, p@, k) by {
        if 0 <= k && k + p@.len() <= s@.len() {
            assert(k <= sc@.len());
        }
    }
    false
}

/// Whether `s` begins with `p`.
pub fn has_prefix(s: &str, p: &str) -> (r: bool)
    ensures
        r == starts_with(s@, p@),
{
    let sc = chars_of(s);
    let pc = chars_of(p);
    matches_at(&sc, &pc, 0)
}

/// The rest of `s` after the prefix `p`, if `s` begins with it.
pub fn strip_prefix(s: &str, p: &str) -> (r: Option<String>)
    ensures
        r is Some <==> starts_with(s@, p@),
        r matches Some(t) ==> t@ == s@.subrange(p@.len() as int, s@.len() as int),
{
    let sc = chars_of(s);
    let pc = chars_of(p);
    if !matches_at(&sc, &pc, 0) {
        return None;
    }
    let mut out: Vec<char> = Vec::new();
    let mut i: usize = pc.len();
    while i < sc.len()
        invariant
            sc@ == s@,
            pc@.len() <= i <= sc@.len(),
            out@ == sc@.subrange(pc@.len() as int, i as int),
        decreases sc@.len() - i,
    {
        out.push(sc[i]);
        i += 1;
        assert(out@ =~= sc@.subrange(pc@.len() as int, i as int));
    }
    Some(string_of(&out))
}

} // verus!

verus! {

pub open spec fn digit_char(d: nat) -> char {
    if d == 0 { '0' }
    else if d == 1 { '1' }
    else if d == 2 { '2' }
    else if d == 3 { '3' }
    else if d == 4 { '4' }
    else if d == 5 { '5' }
    else if d == 6 { '6' }
    else if d == 7 { '7' }
    else if d == 8 { '8' }
    else { '9' }
}

/// The decimal digits of `n`, without leading zeros.
pub open spec fn decimal(n: nat) -> Seq<char>
    decreases n,
{
    if n < 10 {
        seq![digit_char(n)]
    } else {
        decimal(n / 10).push(digit_char(n % 10))
    }
}

fn digit(d: u64) -> (c: char)
    requires
        d < 10,
    ensures
        c == digit_char(d as nat),
{
    if d == 0 { '0' }
    else if d == 1 { '1' }
    else if d == 2 { '2' }
    else if d == 3 { '3' }
    else if d == 4 { '4' }
    else if d == 5 { '5' }
    else if d == 6 { '6' }
    else if d == 7 { '7' }
    else if d == 8 { '8' }
    else { '9' }
}

/// Appends the decimal digits of `n` to `out`.
pub fn push_decimal(out: &mut String, n: u64)
    ensures
        final(out)@ == old(out)@ + decimal(n as nat),
    decreases n,
{
    if n < 10 {
        out.push(digit(n));
        assert(out@ =~= old(out)@ + decimal(n as nat)) by {
            assert(decimal(n as nat) == seq![digit_char(n as nat)]);
        }
    } else {
        push_decimal(out, n / 10);
        out.push(digit(n % 10));
        assert(out@ =~= old(out)@ + decimal(n as nat));
    }
}

} // verus!

verus! {

/// `s` without a trailing carriage return.
pub open spec fn strip_cr(s: Seq<char>) -> Seq<char> {
    if s.len() > 0 && s.last() == '\r' {
        s.drop_last()
    } else {
        s
    }
}

/// The lines of `s` as `str::lines` gives them: cut at each line feed, a carriage return
/// before the line feed dropped, and no empty line after a final line feed.
pub open spec fn lines_seq(s: Seq<char>) -> Seq<Seq<char>> {
    let p = split_seq(s, "\n"@);
    let body = p.drop_last().map_values(|l: Seq<char>| strip_cr(l));
    if p.last().len() == 0 {
        body
    } else {
        body.push(p.last())
    }
}

pub proof fn lemma_split_acc_nonempty(s: Seq<char>, d: Seq<char>, start: int, i: int)
    requires
        d.len() > 0,
    ensures
        split_acc(s, d, start, i).len() > 0,
    decreases s.len() - i,
{
    if i + d.len() > s.len() {
    } else if occurs_at(s, d, i) {
        lemma_split_acc_nonempty(s, d, i + d.len(), i + d.len());
    } else {
        lemma_split_acc_nonempty(s, d, start, i + 1);
    }
}

fn without_cr(s: String) -> (r: String)
    ensures
        r@ == strip_cr(s@),
{
    let cs = chars_of(s.as_str());
    if cs.len() > 0 && cs[cs.len() - 1] == '\r' {
        let mut out: Vec<char> = Vec::new();
        push_slice(&mut out, &cs, 0, cs.len() - 1);
        assert(out@ =~= s@.drop_last());
        string_of(&out)
    } else {
        s
    }
}

/// The lines of `s`, as `str::lines` gives them.
pub fn lines(s: &str) -> (r: Vec<String>)
    ensures
        views(r@) == lines_seq(s@),
{
    proof {
        reveal_strlit("\n");
        lemma_split_acc_nonempty(s@, "\n"@, 0, 0);
    }
    let mut pieces = split_text(s, "\n");
    let ghost p = views(pieces@);
    let last = pieces.pop().unwrap();
    assert(views(pieces@) =~= p.drop_last());
    let mut out: Vec<String> = Vec::new();
    let mut i: usize = 0;
    while i < pieces.len()
        invariant
            p.len() > 0,
            views(pieces@) == p.drop_last(),
            i <= pieces@.len(),
            views(out@) == p.drop_last().subrange(0, i as int).map_values(
                |l: Seq<char>| strip_cr(l),
            ),
        decreases pieces@.len() - i,
    {
        assert(pieces@[i as int]@ == p.drop_last()[i as int]);
        let line = without_cr(pieces[i].clone());
        let ghost before = views(out@);
        out.push(line);
        assert(views(out@) =~= before.push(strip_cr(p.drop_last()[i as int])));
        assert(views(out@) =~= p.drop_last().subrange(0, i + 1).map_values(
            |l: Seq<char>| strip_cr(l),
        ));
        i += 1;
    }
    assert(p.drop_last().subrange(0, i as int) =~= p.drop_last());
    if !last.as_str().is_empty() {
        let ghost before = views(out@);
        out.push(last);
        assert(views(out@) =~= before.push(p.last()));
    }
    out
}

/// `s` with every leading repetition of `p` removed, as `str::trim_start_matches` does.
pub open spec fn strip_all(s: Seq<char>, p: Seq<char>) -> Seq<char>
    decreases s.len(),
{
    if p.len() > 0 && starts_with(s, p) {
        strip_all(s.subrange(p.len() as int, s.len() as int), p)
    } else {
        s
    }
}

/// `s` with every leading repetition of the non-empty `p` removed.
pub fn trim_start_matches(s: &Vec<char>, p: &str) -> (r: Vec<char>)
    requires
        p@.len() > 0,
    ensures
        r@ == strip_all(s@, p@),
{
    let pc = chars_of(p);
    let mut i: usize = 0;
    assert(s@.subrange(0, s@.len() as int) =~= s@);
    let mut m = matches_at(s, &pc, i);
    let n = s.len();
    while m
        invariant
            n == s@.len(),
            pc@ == p@,
            p@.len() > 0,
            i <= s@.len(),
            m == occurs_at(s@, p@, i as int),
            strip_all(s@, p@) == strip_all(s@.subrange(i as int, s@.len() as int), p@),
        decreases s@.len() - i,
    {
        let ghost rest = s@.subrange(i as int, s@.len() as int);
        assert(rest.subrange(0, p@.len() as int) =~= s@.subrange(i as int, i + p@.len()));
        assert(rest.subrange(p@.len() as int, rest.len() as int) =~= s@.subrange(
            i + p@.len(),
            s@.len() as int,
        ));
        i = i + pc.len();
        m = matches_at(s, &pc, i);
    }
    let ghost rest = s@.subrange(i as int, s@.len() as int);
    assert(starts_with(rest, p@) ==> rest.subrange(0, p@.len() as int) =~= s@.subrange(
        i as int,
        i + p@.len(),
    ));
    let mut out: Vec<char> = Vec::new();
    push_slice(&mut out, s, i, s.len());
    out
}

} // verus!

verus! {

/// The strings of `ls` with `sep` between each two.
pub open spec fn join_with(ls: Seq<Seq<char>>, sep: Seq<char>) -> Seq<char>
    decreases ls.len(),
{
    if ls.len() == 0 {
        Seq::empty()
    } else if ls.len() == 1 {
        ls[0]
    } else {
        join_with(ls.drop_last(), sep) + sep + ls.last()
    }
}

/// The first `n` strings of `ls`, with `sep` between each two.
pub fn join(ls: &[String], n: usize, sep: &str) -> (r: String)
    requires
        n <= ls@.len(),
    ensures
        r@ == join_with(views(ls@).subrange(0, n as int), sep@),
{
    let ghost vs = views(ls@);
    let mut r = String::new();
    let mut i: usize = 0;
    while i < n
        invariant
            vs == views(ls@),
            n <= ls@.len(),
            i <= n,
            r@ == join_with(vs.subrange(0, i as int), sep@),
        decreases n - i,
    {
        if i > 0 {
            push_str(&mut r, sep);
        }
        push_str(&mut r, ls[i].as_str());
        assert(vs.subrange(0, i + 1).drop_last() =~= vs.subrange(0, i as int));
        assert(r@ =~= join_with(vs.subrange(0, i + 1), sep@));
        i += 1;
    }
    r
}

} // verus!
