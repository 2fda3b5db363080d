//! Decoding of HTML character entities.
use vstd::prelude::*;
use crate::text::is_ws;
use crate::text::is_whitespace;
use crate::text::span_is;

verus! {

/// Whether `u` is a Unicode scalar value, i.e. a code point that `char` can hold.
pub open spec fn is_scalar(u: u32) -> bool {
    u < 0xd800 || (0xe000 <= u && u < 0x110000)
}

/// Relies on `char::from_u32`: `Some` exactly for scalar values, holding that code point.
pub assume_specification[ char::from_u32 ](i: u32) -> (r: Option<char>)
    ensures
        r is Some <==> is_scalar(i),
        r is Some ==> r->0 == i as char,
;

/// Value of one digit in base 10 or 16 (either case for hex letters).
pub open spec fn digit_value(c: char, hex: bool) -> Option<nat> {
    if '0' <= c && c <= '9' {
        Some((c as u32 - '0' as u32) as nat)
    } else if hex && 'a' <= c && c <= 'f' {
        Some((c as u32 - 'a' as u32 + 10) as nat)
    } else if hex && 'A' <= c && c <= 'F' {
        Some((c as u32 - 'A' as u32 + 10) as nat)
    } else {
        None
    }
}

pub open spec fn radix(hex: bool) -> nat {
    if hex {
        16
    } else {
        10
    }
}

/// The number that the digits `s` spell, or `None` if one is not a digit.
pub open spec fn digits_value(s: Seq<char>, hex: bool) -> Option<nat>
    decreases s.len(),
{
    if s.len() == 0 {
        Some(0)
    } else {
        match (digits_value(s.drop_last(), hex), digit_value(s.last(), hex)) {
            (Some(v), Some(d)) => Some(v * radix(hex) + d),
            _ => None,
        }
    }
}

/// Reading an unsigned 32-bit number as `u32::from_str_radix` does: an
/// optional leading `+`, then at least one digit, and a value that fits.
pub open spec fn parse_u32(s: Seq<char>, hex: bool) -> Option<u32> {
    let body = if s.len() > 1 && s[0] == '+' {
        s.drop_first()
    } else {
        s
    };
    if body.len() == 0 {
        None
    } else {
        match digits_value(body, hex) {
            Some(v) => if v <= u32::MAX {
                Some(v as u32)
            } else {
                None
            },
            None => None,
        }
    }
}

/// The character that a numeric reference `#ddd` or `#xhh` names, if any.
pub open spec fn numeric_entity(name: Seq<char>) -> Option<char> {
    if name.len() >= 1 && name[0] == '#' {
        let num = name.drop_first();
        let parsed = if num.len() >= 1 && num[0] == 'x' {
            parse_u32(num.drop_first(), true)
        } else {
            parse_u32(num, false)
        };
        match parsed {
            Some(u) => if is_scalar(u) {
                Some(u as char)
            } else {
                None
            },
            None => None,
        }
    } else {
        None
    }
}

/// The character an entity name stands for; `&` for names that are unknown.
pub open spec fn entity_char(name: Seq<char>) -> char {
    if name == seq!['a', 'm', 'p'] {
        '&'
    } else if name == seq!['l', 't'] {
        '<'
    } else if name == seq!['g', 't'] {
        '>'
    } else if name == seq!['q', 'u', 'o', 't'] {
        '"'
    } else if name == seq!['a', 'p', 'o', 's'] {
        '\''
    } else if name == seq!['#', '3', '9'] {
        '\''
    } else if name == seq!['n', 'b', 's', 'p'] {
        ' '
    } else if name == seq!['m', 'd', 'a', 's', 'h'] {
        '\u{2014}'
    } else if name == seq!['n', 'd', 'a', 's', 'h'] {
        '\u{2013}'
    } else if name == seq!['c', 'o', 'p', 'y'] {
        '\u{a9}'
    } else if name == seq!['r', 'e', 'g'] {
        '\u{ae}'
    } else {
        match numeric_entity(name) {
            Some(c) => c,
            None => '&',
        }
    }
}

/// Scanning an entity name that starts at `start`, now at `j`: the position
/// where the scan stops, and whether it gave up (on whitespace, or once more
/// than ten characters were read).
pub open spec fn scan_entity(cs: Seq<char>, start: int, j: int) -> (int, bool)
    decreases cs.len() - j,
{
    if j >= cs.len() {
        (j, false)
    } else if cs[j] == ';' {
        (j, false)
    } else if is_ws(cs[j]) || j - start >= 10 {
        (j, true)
    } else {
        scan_entity(cs, start, j + 1)
    }
}

/// Decoding the character at `i`: the character produced and the position
/// after what was consumed. Anything but `&` stands for itself. After `&`
/// the name runs to `;` (consumed) or to the end of the input; when the scan
/// gives up, the `&` stands for itself and the name read so far is dropped.
pub open spec fn decode_at(cs: Seq<char>, i: int) -> (char, int) {
    if cs[i] != '&' {
        (cs[i], i + 1)
    } else {
        let (j, gave_up) = scan_entity(cs, i + 1, i + 1);
        if gave_up {
            ('&', j)
        } else {
            (entity_char(cs.subrange(i + 1, j)), if j < cs.len() {
                j + 1
            } else {
                j
            })
        }
    }
}

proof fn lemma_scan_bounds(cs: Seq<char>, start: int, j: int)
    requires
        start <= j <= cs.len(),
    ensures
        j <= scan_entity(cs, start, j).0 <= cs.len(),
    decreases cs.len() - j,
{
    if j < cs.len() && cs[j] != ';' && !(is_ws(cs[j]) || j - start >= 10) {
        lemma_scan_bounds(cs, start, j + 1);
    }
}

fn digit_of(c: char, hex: bool) -> (r: Option<u32>)
    ensures
        r is Some <==> digit_value(c, hex) is Some,
        r is Some ==> r->0 as nat == digit_value(c, hex)->0 && r->0 < 16,
{
    if '0' <= c && c <= '9' {
        Some(c as u32 - '0' as u32)
    } else if hex && 'a' <= c && c <= 'f' {
        Some(c as u32 - 'a' as u32 + 10)
    } else if hex && 'A' <= c && c <= 'F' {
        Some(c as u32 - 'A' as u32 + 10)
    } else {
        None
    }
}

/// Reads `cs[from..to]` as a number the way `u32::from_str_radix` does.
fn parse_number(cs: &Vec<char>, from: usize, to: usize, hex: bool) -> (r: Option<u32>)
    requires
        from <= to <= cs.len(),
    ensures
        r == parse_u32(cs@.subrange(from as int, to as int), hex),
{
    let ghost s = cs@.subrange(from as int, to as int);
    let mut a = from;
    if to - from > 1 && cs[from] == '+' {
        a = from + 1;
    }
    let ghost body = cs@.subrange(a as int, to as int);
    assert(body == (if s.len() > 1 && s[0] == '+' { s.drop_first() } else { s }));
    if a == to {
        return None;
    }
    let base: u64 = if hex { 16 } else { 10 };
    let mut v: u64 = 0;
    let mut k = a;
    while k < to
        invariant
            a <= k <= to <= cs.len(),
            a < to,
            from <= a,
            s == cs@.subrange(from as int, to as int),
            body == cs@.subrange(a as int, to as int),
            body == (if s.len() > 1 && s[0] == '+' { s.drop_first() } else { s }),
            base == radix(hex),
            digits_value(cs@.subrange(a as int, k as int), hex) is Some,
            ({
                let acc = digits_value(cs@.subrange(a as int, k as int), hex)->0;
                (v as nat == acc && acc <= u32::MAX) || (v == u32::MAX as u64 + 1 && acc
                    > u32::MAX)
            }),
        decreases to - k,
    {
        let ghost pre = cs@.subrange(a as int, k as int);
        let ghost nxt = cs@.subrange(a as int, k + 1);
        assert(nxt.drop_last() == pre);
        let d = digit_of(cs[k], hex);
        match d {
            None => {
                proof {
                    assert(nxt == body.subrange(0, nxt.len() as int));
                    lemma_digits_none_extends(body, nxt, hex);
                }
                return None;
            },
            Some(d) => {
                let ghost acc = digits_value(pre, hex)->0;
                if v > u32::MAX as u64 {
                    assert(acc * radix(hex) + d >= acc) by (nonlinear_arith)
                        requires
                            radix(hex) >= 1,
                    ;
                } else {
                    let nv = v * base + d as u64;
                    v = if nv > u32::MAX as u64 { u32::MAX as u64 + 1 } else { nv };
                }
            },
        }
        k = k + 1;
    }
    if v > u32::MAX as u64 {
        None
    } else {
        Some(v as u32)
    }
}

/// A prefix that holds a non-digit keeps its longer extensions from being numbers.
pub proof fn lemma_digits_none_extends(full: Seq<char>, pre: Seq<char>, hex: bool)
    requires
        pre.len() <= full.len(),
        pre == full.subrange(0, pre.len() as int),
        digits_value(pre, hex) is None,
    ensures
        digits_value(full, hex) is None,
    decreases full.len() - pre.len(),
{
    if full.len() > pre.len() {
        let f1 = full.drop_last();
        assert(f1.subrange(0, pre.len() as int) == pre);
        lemma_digits_none_extends(f1, pre, hex);
    } else {
        assert(full == pre);
    }
}

/// The character for the entity name `cs[from..to]`.
fn lookup_entity(cs: &Vec<char>, from: usize, to: usize) -> (r: char)
    requires
        from <= to <= cs.len(),
    ensures
        r == entity_char(cs@.subrange(from as int, to as int)),
{
    let ghost name = cs@.subrange(from as int, to as int);
    if span_is(cs, from, to, &['a', 'm', 'p']) {
        '&'
    } else if span_is(cs, from, to, &['l', 't']) {
        '<'
    } else if span_is(cs, from, to, &['g', 't']) {
        '>'
    } else if span_is(cs, from, to, &['q', 'u', 'o', 't']) {
        '"'
    } else if span_is(cs, from, to, &['a', 'p', 'o', 's']) {
        '\''
    } else if span_is(cs, from, to, &['#', '3', '9']) {
        '\''
    } else if span_is(cs, from, to, &['n', 'b', 's', 'p']) {
        ' '
    } else if span_is(cs, from, to, &['m', 'd', 'a', 's', 'h']) {
        '\u{2014}'
    } else if span_is(cs, from, to, &['n', 'd', 'a', 's', 'h']) {
        '\u{2013}'
    } else if span_is(cs, from, to, &['c', 'o', 'p', 'y']) {
        '\u{a9}'
    } else if span_is(cs, from, to, &['r', 'e', 'g']) {
        '\u{ae}'
    } else if to > from && cs[from] == '#' {
        let parsed = if to > from + 1 && cs[from + 1] == 'x' {
            parse_number(cs, from + 2, to, true)
        } else {
            parse_number(cs, from + 1, to, false)
        };
        proof {
            let num = name.drop_first();
            assert(num == cs@.subrange(from + 1, to as int));
            if to > from + 1 && cs[from + 1 as int] == 'x' {
                assert(num.drop_first() == cs@.subrange(from + 2, to as int));
            }
        }
        match parsed {
            Some(u) => match char::from_u32(u) {
                Some(c) => c,
                None => '&',
            },
            None => '&',
        }
    } else {
        '&'
    }
}

/// Decodes the character at `i`, reading a whole entity when it is `&`;
/// returns the character and the position after what was consumed.
pub fn decode_entity(cs: &Vec<char>, i: usize) -> (r: (char, usize))
    requires
        i < cs.len(),
    ensures
        r.0 == decode_at(cs@, i as int).0,
        r.1 == decode_at(cs@, i as int).1,
        i < r.1 <= cs.len(),
{
    let c = cs[i];
    if c != '&' {
        return (c, i + 1);
    }
    let start = i + 1;
    let mut j = start;
    proof {
        lemma_scan_bounds(cs@, start as int, start as int);
    }
    while j < cs.len()
        invariant
            start == i + 1,
            cs@[i as int] == '&',
            start <= j <= cs.len(),
            scan_entity(cs@, start as int, j as int) == scan_entity(cs@, start as int, start as int),
        ensures
            start <= j <= cs.len(),
            scan_entity(cs@, start as int, j as int) == scan_entity(cs@, start as int, start as int),
            j == cs.len() || cs@[j as int] == ';',
        decreases cs.len() - j,
    {
        let n = cs[j];
        if n == ';' {
            break;
        }
        if is_whitespace(n) || j - start >= 10 {
            assert(scan_entity(cs@, start as int, j as int) == (j as int, true));
            return ('&', j);
        }
        j = j + 1;
    }
    let decoded = lookup_entity(cs, start, j);
    if j < cs.len() {
        (decoded, j + 1)
    } else {
        (decoded, j)
    }
}

} // verus!
