//! Content classification: binary content types and file names.
use vstd::prelude::*;
use crate::text::{lower_seq, is_ws, is_whitespace, chars_of, string_of, lower_span, char_from,
    find_char, find_from, find_seq, push_all, lemma_find_bounds};
use crate::convert::{starts_with, starts_with_lower};

verus! {

/// Number of content-type prefixes that mark a body as binary.
pub const NUM_BINARY_PREFIXES: usize = 13;

/// The content-type prefixes that mark a body as binary.
pub open spec fn binary_prefix(i: int) -> Seq<char> {
    if i == 0 {
        "image/"@
    } else if i == 1 {
        "audio/"@
    } else if i == 2 {
        "video/"@
    } else if i == 3 {
        "application/octet-stream"@
    } else if i == 4 {
        "application/pdf"@
    } else if i == 5 {
        "application/zip"@
    } else if i == 6 {
        "application/gzip"@
    } else if i == 7 {
        "application/x-tar"@
    } else if i == 8 {
        "application/x-rar"@
    } else if i == 9 {
        "application/x-7z"@
    } else if i == 10 {
        "application/vnd.ms-"@
    } else if i == 11 {
        "application/vnd.openxmlformats"@
    } else {
        "font/"@
    }
}

fn binary_prefix_str(i: usize) -> (r: &'static str)
    requires
        i < NUM_BINARY_PREFIXES,
    ensures
        r@ == binary_prefix(i as int),
{
    match i {
        0 => "image/",
        1 => "audio/",
        2 => "video/",
        3 => "application/octet-stream",
        4 => "application/pdf",
        5 => "application/zip",
        6 => "application/gzip",
        7 => "application/x-tar",
        8 => "application/x-rar",
        9 => "application/x-7z",
        10 => "application/vnd.ms-",
        11 => "application/vnd.openxmlformats",
        _ => "font/",
    }
}

/// A content type is binary when, lower-cased, it starts with one of the prefixes.
pub open spec fn is_binary_spec(content_type: Seq<char>) -> bool {
    exists|i: int|
        0 <= i < NUM_BINARY_PREFIXES && starts_with(lower_seq(content_type), #[trigger] binary_prefix(i))
}

/// Whether a declared content type marks the body as binary.
pub fn is_binary_content_type(content_type: &str) -> (r: bool)
    ensures
        r == is_binary_spec(content_type@),
{
    let cc = chars_of(content_type);
    proof {
        assert(cc@.subrange(0, cc.len() as int) == cc@);
    }
    let mut i: usize = 0;
    while i < NUM_BINARY_PREFIXES
        invariant
            i <= NUM_BINARY_PREFIXES,
            cc@ == content_type@,
            cc@.subrange(0, cc.len() as int) == cc@,
            forall|j: int| 0 <= j < i ==> !starts_with(lower_seq(content_type@), #[trigger] binary_prefix(j)),
        decreases NUM_BINARY_PREFIXES - i,
    {
        let p = chars_of(binary_prefix_str(i));
        if starts_with_lower(&cc, 0, p.as_slice()) {
            assert(starts_with(lower_seq(content_type@), binary_prefix(i as int)));
            return true;
        }
        i = i + 1;
    }
    false
}

/// The prefixes hold no upper-case letter, so a content type that starts with
/// one of them as given also starts with it once lower-cased.
pub proof fn lemma_binary_prefix_detected(content_type: Seq<char>, i: int)
    requires
        0 <= i < NUM_BINARY_PREFIXES,
        starts_with(content_type, binary_prefix(i)),
    ensures
        is_binary_spec(content_type),
{
    let p = binary_prefix(i);
    reveal_strlit("image/");
    reveal_strlit("audio/");
    reveal_strlit("video/");
    reveal_strlit("application/octet-stream");
    reveal_strlit("application/pdf");
    reveal_strlit("application/zip");
    reveal_strlit("application/gzip");
    reveal_strlit("application/x-tar");
    reveal_strlit("application/x-rar");
    reveal_strlit("application/x-7z");
    reveal_strlit("application/vnd.ms-");
    reveal_strlit("application/vnd.openxmlformats");
    reveal_strlit("font/");
    assert(forall|k: int| 0 <= k < p.len() ==> !('A' <= #[trigger] p[k] && p[k] <= 'Z'));
    let l = lower_seq(content_type);
    assert(l.subrange(0, p.len() as int) =~= p) by {
        assert forall|k: int| 0 <= k < p.len() implies l.subrange(0, p.len() as int)[k] == p[k] by {
            assert(content_type[k] == p[k]);
        }
    }
}

/// Position just after the bare value that starts at `j`: the first
/// whitespace or `;`, or the end.
pub open spec fn bare_end_from(s: Seq<char>, j: int) -> int
    decreases s.len() - j,
{
    if 0 <= j < s.len() && !is_ws(s[j]) && s[j] != ';' {
        bare_end_from(s, j + 1)
    } else {
        j
    }
}

/// `s` without the double quotes at its start and at its end.
pub open spec fn trim_quotes_start(s: Seq<char>) -> Seq<char>
    decreases s.len(),
{
    if s.len() > 0 && s[0] == '"' {
        trim_quotes_start(s.drop_first())
    } else {
        s
    }
}

pub open spec fn trim_quotes_end(s: Seq<char>) -> Seq<char>
    decreases s.len(),
{
    if s.len() > 0 && s.last() == '"' {
        trim_quotes_end(s.drop_last())
    } else {
        s
    }
}

pub open spec fn quoted_pattern() -> Seq<char> {
    seq!['f', 'i', 'l', 'e', 'n', 'a', 'm', 'e', '=', '"']
}

pub open spec fn bare_pattern() -> Seq<char> {
    seq!['f', 'i', 'l', 'e', 'n', 'a', 'm', 'e', '=']
}

/// The file name in a `Content-Disposition` value: the first `filename="`
/// (any case) up to the closing quote; failing that, the first `filename=`
/// up to whitespace or `;`, without surrounding quotes, when not empty.
pub open spec fn disposition_filename(v: Seq<char>) -> Option<Seq<char>> {
    let lv = lower_seq(v);
    let quoted = match find_from(lv, quoted_pattern(), 0) {
        Some(k) => {
            let e = char_from(v, k + 10, '"');
            if e < v.len() {
                Some(v.subrange(k + 10, e))
            } else {
                None
            }
        },
        None => None,
    };
    if quoted is Some {
        quoted
    } else {
        match find_from(lv, bare_pattern(), 0) {
            Some(k) => {
                let t = trim_quotes_end(trim_quotes_start(v.subrange(k + 9, bare_end_from(v, k + 9))));
                if t.len() > 0 {
                    Some(t)
                } else {
                    None
                }
            },
            None => None,
        }
    }
}

fn bare_end(s: &Vec<char>, j: usize) -> (r: usize)
    requires
        j <= s.len(),
    ensures
        r as int == bare_end_from(s@, j as int),
        j <= r <= s.len(),
{
    let mut k = j;
    while k < s.len() && !is_whitespace(s[k]) && s[k] != ';'
        invariant
            j <= k <= s.len(),
            bare_end_from(s@, k as int) == bare_end_from(s@, j as int),
        decreases s.len() - k,
    {
        k = k + 1;
    }
    k
}

/// Parses the file name out of a `Content-Disposition` header value.
pub fn parse_content_disposition_filename(value: &str) -> (r: Option<String>)
    ensures
        r is Some <==> disposition_filename(value@) is Some,
        r is Some ==> r->0@ == disposition_filename(value@)->0,
{
    let v = chars_of(value);
    let lv = lower_span(&v, 0, v.len());
    proof {
        assert(v@.subrange(0, v.len() as int) == v@);
    }
    let mut quoted: Vec<char> = Vec::new();
    push_all(&mut quoted, &['f', 'i', 'l', 'e', 'n', 'a', 'm', 'e', '=', '"']);
    assert(quoted@ == quoted_pattern());
    proof {
        lemma_find_bounds(lv@, quoted_pattern(), 0);
    }
    match find_seq(&lv, &quoted) {
        Some(k) => {
            let e = find_char(&v, k + 10, '"');
            if e < v.len() {
                return Some(string_of(&v, k + 10, e));
            }
        },
        None => {},
    }
    let mut bare: Vec<char> = Vec::new();
    push_all(&mut bare, &['f', 'i', 'l', 'e', 'n', 'a', 'm', 'e', '=']);
    assert(bare@ == bare_pattern());
    proof {
        lemma_find_bounds(lv@, bare_pattern(), 0);
    }
    match find_seq(&lv, &bare) {
        Some(k) => {
            let e = bare_end(&v, k + 9);
            let mut a = k + 9;
            while a < e && v[a] == '"'
                invariant
                    k + 9 <= a <= e <= v.len(),
                    trim_quotes_start(v@.subrange(a as int, e as int)) == trim_quotes_start(
                        v@.subrange(k + 9, e as int),
                    ),
                decreases e - a,
            {
                proof {
                    assert(v@.subrange(a as int, e as int).drop_first() == v@.subrange(a + 1, e as int));
                }
                a = a + 1;
            }
            let mut b = e;
            while b > a && v[b - 1] == '"'
                invariant
                    a <= b <= e <= v.len(),
                    trim_quotes_end(v@.subrange(a as int, b as int)) == trim_quotes_end(
                        trim_quotes_start(v@.subrange(k + 9, e as int)),
                    ),
                decreases b,
            {
                proof {
                    assert(v@.subrange(a as int, b as int).drop_last() == v@.subrange(a as int, b - 1));
                }
                b = b - 1;
            }
            if b > a {
                Some(string_of(&v, a, b))
            } else {
                None
            }
        },
        None => None,
    }
}

} // verus!
