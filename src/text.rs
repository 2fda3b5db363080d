//! Character-level helpers shared by the converters.
use vstd::prelude::*;

verus! {

/// Relies on `String::push`: appends one character at the end.
pub assume_specification[ String::push ](s: &mut String, ch: char)
    ensures
        final(s)@ == old(s)@.push(ch),
;

/// The Unicode `White_Space` property, which `char::is_whitespace` tests.
pub open spec fn is_ws(c: char) -> bool {
    let u = c as u32;
    (0x09 <= u && u <= 0x0d) || u == 0x20 || u == 0x85 || u == 0xa0 || u == 0x1680 || (0x2000
        <= u && u <= 0x200a) || u == 0x2028 || u == 0x2029 || u == 0x202f || u == 0x205f || u
        == 0x3000
}

/// Whether `c` is a whitespace character (Unicode `White_Space`).
pub fn is_whitespace(c: char) -> (r: bool)
    ensures
        r == is_ws(c),
{
    let u = c as u32;
    (0x09 <= u && u <= 0x0d) || u == 0x20 || u == 0x85 || u == 0xa0 || u == 0x1680 || (0x2000
        <= u && u <= 0x200a) || u == 0x2028 || u == 0x2029 || u == 0x202f || u == 0x205f || u
        == 0x3000
}

/// ASCII lower-casing of one character; other characters are unchanged.
pub open spec fn lower(c: char) -> char {
    if 'A' <= c && c <= 'Z' {
        (((c as u8) + 32) as u8) as char
    } else {
        c
    }
}

pub open spec fn lower_seq(s: Seq<char>) -> Seq<char> {
    s.map_values(|c: char| lower(c))
}

pub fn to_lower(c: char) -> (r: char)
    ensures
        r == lower(c),
{
    if 'A' <= c && c <= 'Z' {
        ((c as u8) + 32) as char
    } else {
        c
    }
}

/// The characters of `s`, in order.
pub fn chars_of(s: &str) -> (r: Vec<char>)
    ensures
        r@ == s@,
{
    let mut r: Vec<char> = Vec::new();
    for c in it: s.chars()
        invariant
            r@ == it.seq().take(it.index() as int),
    {
        r.push(c);
    }
    r
}

/// A `String` holding the characters `v[from..to]`.
pub fn string_of(v: &Vec<char>, from: usize, to: usize) -> (r: String)
    requires
        from <= to <= v.len(),
    ensures
        r@ == v@.subrange(from as int, to as int),
{
    let mut r = String::new();
    let mut i = from;
    while i < to
        invariant
            from <= i <= to <= v.len(),
            r@ == v@.subrange(from as int, i as int),
        decreases to - i,
    {
        r.push(v[i]);
        assert(v@.subrange(from as int, i + 1) == v@.subrange(from as int, i as int).push(v@[i as int]));
        i = i + 1;
    }
    r
}

/// Whether `cs[from..to]` is exactly `lit`.
pub fn span_is(cs: &Vec<char>, from: usize, to: usize, lit: &[char]) -> (r: bool)
    requires
        from <= to <= cs.len(),
    ensures
        r == (cs@.subrange(from as int, to as int) == lit@),
{
    if to - from != lit.len() {
        return false;
    }
    let mut k: usize = 0;
    while k < lit.len()
        invariant
            to - from == lit.len(),
            from <= to <= cs.len(),
            k <= lit.len(),
            forall|m: int| 0 <= m < k ==> cs@[from + m] == lit@[m],
        decreases lit.len() - k,
    {
        if cs[from + k] != lit[k] {
            assert(cs@.subrange(from as int, to as int)[k as int] != lit@[k as int]);
            return false;
        }
        k = k + 1;
    }
    assert(cs@.subrange(from as int, to as int) =~= lit@);
    true
}

/// A copy of `v[from..to]`.
pub fn copy_span(v: &Vec<char>, from: usize, to: usize) -> (r: Vec<char>)
    requires
        from <= to <= v.len(),
    ensures
        r@ == v@.subrange(from as int, to as int),
{
    let mut r: Vec<char> = Vec::new();
    let mut k = from;
    while k < to
        invariant
            from <= k <= to <= v.len(),
            r@ == v@.subrange(from as int, k as int),
        decreases to - k,
    {
        r.push(v[k]);
        assert(v@.subrange(from as int, k + 1) == v@.subrange(from as int, k as int).push(v@[k as int]));
        k = k + 1;
    }
    r
}

/// First position at or after `j` that is not whitespace (or the end).
pub open spec fn skip_ws_from(s: Seq<char>, j: int) -> int
    decreases s.len() - j,
{
    if 0 <= j < s.len() && is_ws(s[j]) {
        skip_ws_from(s, j + 1)
    } else {
        j
    }
}

/// First position at or after `j` that is whitespace (or the end).
pub open spec fn word_end_from(s: Seq<char>, j: int) -> int
    decreases s.len() - j,
{
    if 0 <= j < s.len() && !is_ws(s[j]) {
        word_end_from(s, j + 1)
    } else {
        j
    }
}

/// First position at or after `j` that holds `c` (or the end).
pub open spec fn char_from(s: Seq<char>, j: int, c: char) -> int
    decreases s.len() - j,
{
    if 0 <= j < s.len() && s[j] != c {
        char_from(s, j + 1, c)
    } else {
        j
    }
}

/// First position at or after `j` where `needle` occurs in `hay`.
pub open spec fn find_from(hay: Seq<char>, needle: Seq<char>, j: int) -> Option<int>
    decreases hay.len() + 1 - j,
{
    if j < 0 || j + needle.len() > hay.len() {
        None
    } else if hay.subrange(j, j + needle.len()) == needle {
        Some(j)
    } else {
        find_from(hay, needle, j + 1)
    }
}

pub fn skip_ws(s: &Vec<char>, j: usize) -> (r: usize)
    requires
        j <= s.len(),
    ensures
        r as int == skip_ws_from(s@, j as int),
        j <= r <= s.len(),
{
    let mut k = j;
    while k < s.len() && is_whitespace(s[k])
        invariant
            j <= k <= s.len(),
            skip_ws_from(s@, k as int) == skip_ws_from(s@, j as int),
        decreases s.len() - k,
    {
        k = k + 1;
    }
    k
}

pub fn word_end(s: &Vec<char>, j: usize) -> (r: usize)
    requires
        j <= s.len(),
    ensures
        r as int == word_end_from(s@, j as int),
        j <= r <= s.len(),
{
    let mut k = j;
    while k < s.len() && !is_whitespace(s[k])
        invariant
            j <= k <= s.len(),
            word_end_from(s@, k as int) == word_end_from(s@, j as int),
        decreases s.len() - k,
    {
        k = k + 1;
    }
    k
}

pub fn find_char(s: &Vec<char>, j: usize, c: char) -> (r: usize)
    requires
        j <= s.len(),
    ensures
        r as int == char_from(s@, j as int, c),
        j <= r <= s.len(),
{
    let mut k = j;
    while k < s.len() && s[k] != c
        invariant
            j <= k <= s.len(),
            char_from(s@, k as int, c) == char_from(s@, j as int, c),
        decreases s.len() - k,
    {
        k = k + 1;
    }
    k
}

pub proof fn lemma_find_bounds(hay: Seq<char>, needle: Seq<char>, j: int)
    ensures
        find_from(hay, needle, j) is Some ==> ({
            let k = find_from(hay, needle, j)->0;
            j <= k && k + needle.len() <= hay.len() && hay.subrange(k, k + needle.len())
                == needle
        }),
    decreases hay.len() + 1 - j,
{
    if !(j < 0 || j + needle.len() > hay.len()) && hay.subrange(j, j + needle.len()) != needle {
        lemma_find_bounds(hay, needle, j + 1);
    }
}

pub fn find_seq(hay: &Vec<char>, needle: &Vec<char>) -> (r: Option<usize>)
    ensures
        r is Some <==> find_from(hay@, needle@, 0) is Some,
        r is Some ==> r->0 as int == find_from(hay@, needle@, 0)->0,
{
    if needle.len() > hay.len() {
        return None;
    }
    let last = hay.len() - needle.len();
    let mut k: usize = 0;
    loop
        invariant
            needle.len() <= hay.len(),
            last == hay.len() - needle.len(),
            k <= last,
            find_from(hay@, needle@, k as int) == find_from(hay@, needle@, 0),
        decreases last - k,
    {
        if span_is(hay, k, k + needle.len(), needle.as_slice()) {
            return Some(k);
        }
        if k == last {
            assert(find_from(hay@, needle@, k + 1) is None);
            return None;
        }
        k = k + 1;
    }
}

/// ASCII lower-cased copy of `s[from..to]`.
pub fn lower_span(s: &Vec<char>, from: usize, to: usize) -> (r: Vec<char>)
    requires
        from <= to <= s.len(),
    ensures
        r@ == lower_seq(s@.subrange(from as int, to as int)),
{
    let mut r: Vec<char> = Vec::new();
    let mut k = from;
    while k < to
        invariant
            from <= k <= to <= s.len(),
            r@ == lower_seq(s@.subrange(from as int, k as int)),
        decreases to - k,
    {
        r.push(to_lower(s[k]));
        assert(lower_seq(s@.subrange(from as int, k + 1)) == lower_seq(s@.subrange(from as int, k as int)).push(lower(s@[k as int])));
        k = k + 1;
    }
    r
}

/// Appends the characters of `lit` to `out`.
pub fn push_all(out: &mut Vec<char>, lit: &[char])
    ensures
        final(out)@ == old(out)@ + lit@,
{
    let mut k: usize = 0;
    while k < lit.len()
        invariant
            k <= lit.len(),
            out@ == old(out)@ + lit@.subrange(0, k as int),
        decreases lit.len() - k,
    {
        out.push(lit[k]);
        assert(lit@.subrange(0, k + 1) == lit@.subrange(0, k as int).push(lit@[k as int]));
        k = k + 1;
    }
    assert(lit@.subrange(0, lit.len() as int) == lit@);
}

/// The character of a decimal digit.
pub open spec fn digit_char(d: nat) -> char {
    ((48 + d) as u8) as char
}

/// Decimal notation of `n`, without leading zeros.
pub open spec fn decimal(n: nat) -> Seq<char>
    decreases n,
{
    if n < 10 {
        seq![digit_char(n)]
    } else {
        decimal(n / 10).push(digit_char(n % 10))
    }
}

/// `n` written in decimal.
pub fn decimal_string(n: u64) -> (r: String)
    ensures
        r@ == decimal(n as nat),
    decreases n,
{
    if n < 10 {
        let mut s = String::new();
        s.push(((48 + n) as u8) as char);
        s
    } else {
        let mut s = decimal_string(n / 10);
        s.push(((48 + n % 10) as u8) as char);
        s
    }
}

} // verus!
