//! Whitespace normalisation: collapsing runs, capping newline runs, trimming.
use vstd::prelude::*;
use crate::text::{is_ws, is_whitespace, chars_of, string_of};

verus! {

/// Number of newlines at the end of `s`.
pub open spec fn trailing_newlines(s: Seq<char>) -> nat
    decreases s.len(),
{
    if s.len() > 0 && s.last() == '\n' {
        1 + trailing_newlines(s.drop_last())
    } else {
        0
    }
}

/// `s` holds no run of three or more newlines.
pub open spec fn no_triple_newline(s: Seq<char>) -> bool {
    forall|i: int|
        0 <= i && i + 2 < s.len() ==> !(#[trigger] s[i] == '\n' && s[i + 1] == '\n' && s[i + 2]
            == '\n')
}

/// Whitespace is collapsed: the only whitespace characters are spaces and
/// newlines, no space follows a space or a newline, no space precedes a
/// newline, and no newline run is longer than two.
pub open spec fn collapsed(s: Seq<char>) -> bool {
    &&& forall|i: int| 0 <= i < s.len() && is_ws(#[trigger] s[i]) ==> s[i] == ' ' || s[i] == '\n'
    &&& forall|i: int|
        0 <= i && i + 1 < s.len() && #[trigger] s[i] == ' ' ==> s[i + 1] != ' ' && s[i + 1] != '\n'
    &&& forall|i: int| 0 <= i && i + 1 < s.len() && #[trigger] s[i] == '\n' ==> s[i + 1] != ' '
    &&& no_triple_newline(s)
}

/// The normal form that `clean_whitespace` produces: collapsed, and neither
/// starting nor ending with whitespace.
pub open spec fn normalized(s: Seq<char>) -> bool {
    &&& collapsed(s)
    &&& s.len() > 0 ==> !is_ws(s[0]) && !is_ws(s.last())
}

/// `s` without its leading whitespace.
pub open spec fn trim_start(s: Seq<char>) -> Seq<char>
    decreases s.len(),
{
    if s.len() > 0 && is_ws(s[0]) {
        trim_start(s.drop_first())
    } else {
        s
    }
}

/// `s` without its trailing whitespace.
pub open spec fn trim_end(s: Seq<char>) -> Seq<char>
    decreases s.len(),
{
    if s.len() > 0 && is_ws(s.last()) {
        trim_end(s.drop_last())
    } else {
        s
    }
}

pub open spec fn trim(s: Seq<char>) -> Seq<char> {
    trim_end(trim_start(s))
}

/// The whitespace pass reads one character. Its state is the output so far,
/// whether the last character read counts as a space, and the number of
/// newlines that end the output (counted up to three).
pub open spec fn collapse_step(st: (Seq<char>, bool, nat), c: char) -> (Seq<char>, bool, nat) {
    let (out, last_space, nl) = st;
    if c == '\n' {
        let out1 = if last_space && out.len() > 0 && out.last() == ' ' {
            out.drop_last()
        } else {
            out
        };
        let nl1: nat = if nl >= 3 {
            3
        } else {
            nl + 1
        };
        (if nl1 <= 2 {
            out1.push('\n')
        } else {
            out1
        }, true, nl1)
    } else if is_ws(c) {
        if last_space {
            (out, true, nl)
        } else {
            (out.push(' '), true, 0)
        }
    } else {
        (out.push(c), false, 0)
    }
}

pub open spec fn collapse_fold(s: Seq<char>) -> (Seq<char>, bool, nat)
    decreases s.len(),
{
    if s.len() == 0 {
        (Seq::empty(), false, 0)
    } else {
        collapse_step(collapse_fold(s.drop_last()), s.last())
    }
}

/// What `clean_whitespace` returns for `s`.
pub open spec fn clean_spec(s: Seq<char>) -> Seq<char> {
    trim(collapse_fold(s).0)
}

/// The newline cap reads one character; the state is the output and the
/// length of the newline run that ends the input read (counted up to three).
pub open spec fn cap_step(st: (Seq<char>, nat), c: char) -> (Seq<char>, nat) {
    let (out, nl) = st;
    if c == '\n' {
        let nl1: nat = if nl >= 3 {
            3
        } else {
            nl + 1
        };
        (if nl1 <= 2 {
            out.push('\n')
        } else {
            out
        }, nl1)
    } else {
        (out.push(c), 0)
    }
}

pub open spec fn cap_fold(s: Seq<char>) -> (Seq<char>, nat)
    decreases s.len(),
{
    if s.len() == 0 {
        (Seq::empty(), 0)
    } else {
        cap_step(cap_fold(s.drop_last()), s.last())
    }
}

/// What `filter_excessive_newlines` returns for `s`.
pub open spec fn cap_spec(s: Seq<char>) -> Seq<char> {
    cap_fold(s).0
}

proof fn lemma_trailing(s: Seq<char>)
    ensures
        trailing_newlines(s) >= 1 <==> (s.len() >= 1 && s.last() == '\n'),
        trailing_newlines(s) >= 2 <==> (s.len() >= 2 && s.last() == '\n' && s[s.len() - 2]
            == '\n'),
{
    if s.len() >= 1 && s.last() == '\n' {
        let t = s.drop_last();
        assert(trailing_newlines(s) == 1 + trailing_newlines(t));
        if t.len() >= 1 && t.last() == '\n' {
            assert(trailing_newlines(t) == 1 + trailing_newlines(t.drop_last()));
        }
    }
}

proof fn lemma_trailing_push(s: Seq<char>, c: char)
    ensures
        trailing_newlines(s.push(c)) == if c == '\n' {
            trailing_newlines(s) + 1
        } else {
            0
        },
{
    assert(s.push(c).drop_last() == s);
}

proof fn lemma_collapsed_drop_last(s: Seq<char>)
    requires
        collapsed(s),
        s.len() > 0,
    ensures
        collapsed(s.drop_last()),
{
    let t = s.drop_last();
    assert forall|i: int| 0 <= i && i + 2 < t.len() implies !(#[trigger] t[i] == '\n' && t[i + 1]
        == '\n' && t[i + 2] == '\n') by {
        assert(t[i] == s[i] && t[i + 1] == s[i + 1] && t[i + 2] == s[i + 2]);
    }
}

proof fn lemma_collapsed_subrange(s: Seq<char>, a: int, b: int)
    requires
        collapsed(s),
        0 <= a <= b <= s.len(),
    ensures
        collapsed(s.subrange(a, b)),
{
    let t = s.subrange(a, b);
    assert forall|i: int| 0 <= i && i + 2 < t.len() implies !(#[trigger] t[i] == '\n' && t[i + 1]
        == '\n' && t[i + 2] == '\n') by {
        assert(t[i] == s[a + i] && t[i + 1] == s[a + i + 1] && t[i + 2] == s[a + i + 2]);
    }
    assert forall|i: int| 0 <= i && i + 1 < t.len() && #[trigger] t[i] == ' ' implies t[i + 1]
        != ' ' && t[i + 1] != '\n' by {
        assert(t[i] == s[a + i] && t[i + 1] == s[a + i + 1]);
    }
    assert forall|i: int| 0 <= i && i + 1 < t.len() && #[trigger] t[i] == '\n' implies t[i + 1]
        != ' ' by {
        assert(t[i] == s[a + i] && t[i + 1] == s[a + i + 1]);
    }
    assert forall|i: int| 0 <= i < t.len() && is_ws(#[trigger] t[i]) implies t[i] == ' ' || t[i]
        == '\n' by {
        assert(t[i] == s[a + i]);
    }
}

/// Pushing `c` keeps the output collapsed when `c` fits after the last character.
proof fn lemma_collapsed_push(s: Seq<char>, c: char)
    requires
        collapsed(s),
        is_ws(c) ==> c == ' ' || c == '\n',
        c == ' ' ==> s.len() == 0 || (s.last() != ' ' && s.last() != '\n'),
        c == '\n' ==> s.len() == 0 || s.last() != ' ',
        c == '\n' ==> trailing_newlines(s) <= 1,
    ensures
        collapsed(s.push(c)),
{
    let t = s.push(c);
    lemma_trailing(s);
    assert forall|i: int| 0 <= i && i + 2 < t.len() implies !(#[trigger] t[i] == '\n' && t[i + 1]
        == '\n' && t[i + 2] == '\n') by {
        if i + 2 < s.len() {
            assert(t[i] == s[i] && t[i + 1] == s[i + 1] && t[i + 2] == s[i + 2]);
        }
    }
    assert forall|i: int| 0 <= i && i + 1 < t.len() && #[trigger] t[i] == ' ' implies t[i + 1]
        != ' ' && t[i + 1] != '\n' by {
        if i + 1 < s.len() {
            assert(t[i] == s[i] && t[i + 1] == s[i + 1]);
        }
    }
    assert forall|i: int| 0 <= i && i + 1 < t.len() && #[trigger] t[i] == '\n' implies t[i + 1]
        != ' ' by {
        if i + 1 < s.len() {
            assert(t[i] == s[i] && t[i + 1] == s[i + 1]);
        }
    }
}

pub open spec fn collapse_inv(st: (Seq<char>, bool, nat)) -> bool {
    let (out, last_space, nl) = st;
    &&& collapsed(out)
    &&& last_space <==> (out.len() > 0 && (out.last() == ' ' || out.last() == '\n'))
    &&& nl <= 3
    &&& trailing_newlines(out) == if nl >= 2 {
        2
    } else {
        nl
    }
}

proof fn lemma_collapse_step_inv(st: (Seq<char>, bool, nat), c: char)
    requires
        collapse_inv(st),
    ensures
        collapse_inv(collapse_step(st, c)),
{
    let (out, last_space, nl) = st;
    lemma_trailing(out);
    if c == '\n' {
        if last_space && out.len() > 0 && out.last() == ' ' {
            let o1 = out.drop_last();
            lemma_collapsed_drop_last(out);
            assert(out.last() != '\n');
            if o1.len() > 0 {
                assert(out[o1.len() - 1] == o1.last());
                assert(o1.last() != ' ' && o1.last() != '\n');
            }
            lemma_trailing(o1);
            lemma_collapsed_push(o1, '\n');
            lemma_trailing_push(o1, '\n');
        } else if nl < 2 {
            lemma_collapsed_push(out, '\n');
            lemma_trailing_push(out, '\n');
        }
    } else if is_ws(c) {
        if !last_space {
            lemma_collapsed_push(out, ' ');
            lemma_trailing_push(out, ' ');
        }
    } else {
        lemma_collapsed_push(out, c);
        lemma_trailing_push(out, c);
    }
}

proof fn lemma_collapse_fold_inv(s: Seq<char>)
    ensures
        collapse_inv(collapse_fold(s)),
    decreases s.len(),
{
    if s.len() > 0 {
        lemma_collapse_fold_inv(s.drop_last());
        lemma_collapse_step_inv(collapse_fold(s.drop_last()), s.last());
    }
}

proof fn lemma_trim_start(s: Seq<char>) -> (k: int)
    ensures
        0 <= k <= s.len(),
        trim_start(s) == s.subrange(k, s.len() as int),
        k < s.len() ==> !is_ws(s[k]),
    decreases s.len(),
{
    if s.len() > 0 && is_ws(s[0]) {
        let k1 = lemma_trim_start(s.drop_first());
        assert(s.drop_first().subrange(k1, s.len() - 1) == s.subrange(k1 + 1, s.len() as int));
        k1 + 1
    } else {
        assert(s.subrange(0, s.len() as int) == s);
        0
    }
}

proof fn lemma_trim_end(s: Seq<char>) -> (k: int)
    ensures
        0 <= k <= s.len(),
        trim_end(s) == s.subrange(0, k),
        k > 0 ==> !is_ws(s[k - 1]),
    decreases s.len(),
{
    if s.len() > 0 && is_ws(s.last()) {
        let k1 = lemma_trim_end(s.drop_last());
        assert(s.drop_last().subrange(0, k1) == s.subrange(0, k1));
        k1
    } else {
        assert(s.subrange(0, s.len() as int) == s);
        s.len() as int
    }
}

proof fn lemma_trim_collapsed(s: Seq<char>)
    requires
        collapsed(s),
    ensures
        normalized(trim(s)),
{
    let a = lemma_trim_start(s);
    let t = trim_start(s);
    lemma_collapsed_subrange(s, a, s.len() as int);
    let b = lemma_trim_end(t);
    lemma_collapsed_subrange(t, 0, b);
    let r = trim(s);
    if r.len() > 0 {
        assert(r[0] == t[0]);
        assert(r.last() == t[b - 1]);
    }
}

/// `clean_spec` always yields the normal form.
pub proof fn lemma_clean_normalized(s: Seq<char>)
    ensures
        normalized(clean_spec(s)),
{
    lemma_collapse_fold_inv(s);
    lemma_trim_collapsed(collapse_fold(s).0);
}

/// On a collapsed input whose first character is not whitespace, the pass
/// copies every prefix unchanged.
proof fn lemma_collapse_fold_identity(t: Seq<char>, n: int)
    requires
        normalized(t),
        0 <= n <= t.len(),
    ensures
        collapse_fold(t.take(n)) == (t.take(n), n > 0 && (t[n - 1] == ' ' || t[n - 1] == '\n'),
        trailing_newlines(t.take(n))),
    decreases n,
{
    let p = t.take(n);
    if n > 0 {
        let q = t.take(n - 1);
        assert(p.drop_last() == q);
        lemma_collapse_fold_identity(t, n - 1);
        let c = t[n - 1];
        assert(p == q.push(c));
        lemma_trailing_push(q, c);
        lemma_trailing(q);
        if n >= 2 {
            assert(q.last() == t[n - 2]);
        }
        if c == '\n' {
            if n >= 3 {
                assert(!(t[n - 3] == '\n' && t[n - 2] == '\n' && t[n - 1] == '\n'));
            }
        }
    }
}

proof fn lemma_trim_identity(t: Seq<char>)
    requires
        t.len() > 0 ==> !is_ws(t[0]) && !is_ws(t.last()),
    ensures
        trim(t) == t,
{
}

/// Normalising whitespace twice gives the same result as normalising once.
pub proof fn lemma_clean_idempotent(s: Seq<char>)
    ensures
        clean_spec(clean_spec(s)) == clean_spec(s),
{
    let t = clean_spec(s);
    lemma_clean_normalized(s);
    lemma_collapse_fold_identity(t, t.len() as int);
    assert(t.take(t.len() as int) == t);
    lemma_trim_identity(t);
}

pub open spec fn cap_inv(st: (Seq<char>, nat)) -> bool {
    let (out, nl) = st;
    &&& no_triple_newline(out)
    &&& nl <= 3
    &&& trailing_newlines(out) == if nl >= 2 {
        2
    } else {
        nl
    }
}

proof fn lemma_no_triple_push(s: Seq<char>, c: char)
    requires
        no_triple_newline(s),
        c == '\n' ==> trailing_newlines(s) <= 1,
    ensures
        no_triple_newline(s.push(c)),
{
    let t = s.push(c);
    lemma_trailing(s);
    assert forall|i: int| 0 <= i && i + 2 < t.len() implies !(#[trigger] t[i] == '\n' && t[i + 1]
        == '\n' && t[i + 2] == '\n') by {
        if i + 2 < s.len() {
            assert(t[i] == s[i] && t[i + 1] == s[i + 1] && t[i + 2] == s[i + 2]);
        }
    }
}

proof fn lemma_cap_fold_inv(s: Seq<char>)
    ensures
        cap_inv(cap_fold(s)),
    decreases s.len(),
{
    if s.len() > 0 {
        lemma_cap_fold_inv(s.drop_last());
        let (out, nl) = cap_fold(s.drop_last());
        let c = s.last();
        if c != '\n' || nl < 2 {
            lemma_no_triple_push(out, c);
            lemma_trailing_push(out, c);
        }
    }
}

proof fn lemma_cap_fold_identity(t: Seq<char>, n: int)
    requires
        no_triple_newline(t),
        0 <= n <= t.len(),
    ensures
        cap_fold(t.take(n)) == (t.take(n), trailing_newlines(t.take(n))),
    decreases n,
{
    let p = t.take(n);
    if n > 0 {
        let q = t.take(n - 1);
        assert(p.drop_last() == q);
        lemma_cap_fold_identity(t, n - 1);
        let c = t[n - 1];
        assert(p == q.push(c));
        lemma_trailing_push(q, c);
        lemma_trailing(q);
        if c == '\n' && n >= 3 {
            assert(q.last() == t[n - 2] && q[q.len() - 2] == t[n - 3]);
            assert(!(t[n - 3] == '\n' && t[n - 2] == '\n' && t[n - 1] == '\n'));
        }
    }
}

/// Text without a run of three newlines passes the newline cap unchanged.
pub proof fn lemma_cap_keeps_capped(t: Seq<char>)
    requires
        no_triple_newline(t),
    ensures
        cap_spec(t) == t,
{
    lemma_cap_fold_identity(t, t.len() as int);
    assert(t.take(t.len() as int) == t);
}

/// Neither normaliser leaves a run of three or more newlines.
pub proof fn lemma_newline_cap(s: Seq<char>)
    ensures
        no_triple_newline(clean_spec(s)),
        no_triple_newline(cap_spec(s)),
{
    lemma_clean_normalized(s);
    lemma_cap_fold_inv(s);
}

/// Capping newline runs twice gives the same result as capping once.
pub proof fn lemma_cap_idempotent(s: Seq<char>)
    ensures
        cap_spec(cap_spec(s)) == cap_spec(s),
{
    let t = cap_spec(s);
    lemma_cap_fold_inv(s);
    lemma_cap_fold_identity(t, t.len() as int);
    assert(t.take(t.len() as int) == t);
}

/// Collapse whitespace runs to one space, drop spaces before a newline, keep
/// at most two newlines in a row, and trim the ends.
pub fn clean_whitespace(s: &str) -> (r: String)
    ensures
        r@ == clean_spec(s@),
        normalized(r@),
{
    let cs = chars_of(s);
    clean_chars(&cs)
}

/// `clean_whitespace` on a sequence of characters.
pub fn clean_chars(cs: &Vec<char>) -> (r: String)
    ensures
        r@ == clean_spec(cs@),
        normalized(r@),
{
    let mut out: Vec<char> = Vec::new();
    let mut last_space = false;
    let mut nl: usize = 0;
    let mut i: usize = 0;
    while i < cs.len()
        invariant
            i <= cs.len(),
            (out@, last_space, nl as nat) == collapse_fold(cs@.take(i as int)),
        decreases cs.len() - i,
    {
        proof {
            assert(cs@.take(i + 1).drop_last() == cs@.take(i as int));
            lemma_collapse_fold_inv(cs@.take(i as int));
        }
        let c = cs[i];
        if c == '\n' {
            if last_space && out.len() > 0 && out[out.len() - 1] == ' ' {
                out.pop();
            }
            nl = if nl >= 3 { 3 } else { nl + 1 };
            last_space = true;
            if nl <= 2 {
                out.push('\n');
            }
        } else if is_whitespace(c) {
            if !last_space {
                out.push(' ');
                last_space = true;
                nl = 0;
            }
        } else {
            out.push(c);
            last_space = false;
            nl = 0;
        }
        i = i + 1;
    }
    proof {
        assert(cs@.take(cs.len() as int) == cs@);
        assert(out@.subrange(0, out.len() as int) == out@);
    }
    let mut a: usize = 0;
    while a < out.len() && is_whitespace(out[a])
        invariant
            a <= out.len(),
            trim_start(out@.subrange(a as int, out.len() as int)) == trim_start(out@),
        decreases out.len() - a,
    {
        proof {
            let w = out@.subrange(a as int, out.len() as int);
            assert(w.drop_first() == out@.subrange(a + 1, out.len() as int));
        }
        a = a + 1;
    }
    let mut b: usize = out.len();
    while b > a && is_whitespace(out[b - 1])
        invariant
            a <= b <= out.len(),
            trim_end(out@.subrange(a as int, b as int)) == trim(out@),
        decreases b,
    {
        proof {
            let w = out@.subrange(a as int, b as int);
            assert(w.drop_last() == out@.subrange(a as int, b - 1));
        }
        b = b - 1;
    }
    proof {
        lemma_clean_normalized(cs@);
    }
    string_of(&out, a, b)
}

/// Keep at most two newlines in a row; everything else is copied.
pub fn filter_excessive_newlines(s: &str) -> (r: String)
    ensures
        r@ == cap_spec(s@),
        no_triple_newline(r@),
{
    let cs = chars_of(s);
    let mut out = String::new();
    let mut nl: usize = 0;
    let mut i: usize = 0;
    while i < cs.len()
        invariant
            i <= cs.len(),
            (out@, nl as nat) == cap_fold(cs@.take(i as int)),
        decreases cs.len() - i,
    {
        proof {
            assert(cs@.take(i + 1).drop_last() == cs@.take(i as int));
            lemma_cap_fold_inv(cs@.take(i as int));
        }
        let c = cs[i];
        if c == '\n' {
            nl = if nl >= 3 { 3 } else { nl + 1 };
            if nl <= 2 {
                out.push('\n');
            }
        } else {
            out.push(c);
            nl = 0;
        }
        i = i + 1;
    }
    proof {
        assert(cs@.take(cs.len() as int) == cs@);
        lemma_newline_cap(s@);
    }
    out
}

} // verus!
