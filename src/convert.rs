//! Streaming conversion of HTML to Markdown or plain text, without a DOM.
use vstd::prelude::*;
use crate::text::{to_lower, is_ws, is_whitespace, lower_seq, chars_of, string_of, copy_span, lower_span,
    skip_ws_from, word_end_from, char_from, find_from, skip_ws, word_end, find_char, find_seq,
    span_is, push_all, lemma_find_bounds};
use crate::entity::{decode_at, decode_entity};
use crate::whitespace::{clean_spec, clean_chars, normalized};

verus! {

/// Elements whose whole content is dropped.
#[derive(Clone, Copy, PartialEq, Eq, Structural, Debug)]
pub enum SkipTag {
    Script,
    Style,
    Noscript,
    Iframe,
    Svg,
}

/// What a (lower-cased) tag name means to the converters.
#[derive(Clone, Copy, PartialEq, Eq, Structural, Debug)]
pub enum TagKind {
    Skip(SkipTag),
    Heading(usize),
    P,
    Div,
    Sectioning,
    Br,
    Hr,
    List,
    Li,
    Strong,
    Em,
    Pre,
    Code,
    Blockquote,
    Anchor,
    Tr,
    Other,
}

pub open spec fn tag_kind(n: Seq<char>) -> TagKind {
    match skip_or_heading(n) {
        Some(k) => k,
        None => block_or_inline(n),
    }
}

pub open spec fn skip_or_heading(n: Seq<char>) -> Option<TagKind> {
    if n == seq!['s', 'c', 'r', 'i', 'p', 't'] {
        Some(TagKind::Skip(SkipTag::Script))
    } else if n == seq!['s', 't', 'y', 'l', 'e'] {
        Some(TagKind::Skip(SkipTag::Style))
    } else if n == seq!['n', 'o', 's', 'c', 'r', 'i', 'p', 't'] {
        Some(TagKind::Skip(SkipTag::Noscript))
    } else if n == seq!['i', 'f', 'r', 'a', 'm', 'e'] {
        Some(TagKind::Skip(SkipTag::Iframe))
    } else if n == seq!['s', 'v', 'g'] {
        Some(TagKind::Skip(SkipTag::Svg))
    } else if n == seq!['h', '1'] {
        Some(TagKind::Heading(1))
    } else if n == seq!['h', '2'] {
        Some(TagKind::Heading(2))
    } else if n == seq!['h', '3'] {
        Some(TagKind::Heading(3))
    } else if n == seq!['h', '4'] {
        Some(TagKind::Heading(4))
    } else if n == seq!['h', '5'] {
        Some(TagKind::Heading(5))
    } else if n == seq!['h', '6'] {
        Some(TagKind::Heading(6))
    } else {
        None
    }
}

pub open spec fn block_or_inline(n: Seq<char>) -> TagKind {
    if n == seq!['p'] {
        TagKind::P
    } else if n == seq!['d', 'i', 'v'] {
        TagKind::Div
    } else if n == seq!['s', 'e', 'c', 't', 'i', 'o', 'n'] || n == seq!['a', 'r', 't', 'i', 'c', 'l', 'e']
        || n == seq!['m', 'a', 'i', 'n'] || n == seq!['h', 'e', 'a', 'd', 'e', 'r'] || n == seq![
        'f',
        'o',
        'o',
        't',
        'e',
        'r',
    ] {
        TagKind::Sectioning
    } else if n == seq!['b', 'r'] {
        TagKind::Br
    } else if n == seq!['h', 'r'] {
        TagKind::Hr
    } else if n == seq!['u', 'l'] || n == seq!['o', 'l'] {
        TagKind::List
    } else if n == seq!['l', 'i'] {
        TagKind::Li
    } else {
        inline_kind(n)
    }
}

pub open spec fn inline_kind(n: Seq<char>) -> TagKind {
    if n == seq!['s', 't', 'r', 'o', 'n', 'g'] || n == seq!['b'] {
        TagKind::Strong
    } else if n == seq!['e', 'm'] || n == seq!['i'] {
        TagKind::Em
    } else if n == seq!['p', 'r', 'e'] {
        TagKind::Pre
    } else if n == seq!['c', 'o', 'd', 'e'] {
        TagKind::Code
    } else if n == seq!['b', 'l', 'o', 'c', 'k', 'q', 'u', 'o', 't', 'e'] {
        TagKind::Blockquote
    } else if n == seq!['a'] {
        TagKind::Anchor
    } else if n == seq!['t', 'r'] {
        TagKind::Tr
    } else {
        TagKind::Other
    }
}

/// Whether `s[from..to]` is the single character `c`.
fn span_is_char(s: &Vec<char>, from: usize, to: usize, c: char) -> (r: bool)
    requires
        from <= to <= s.len(),
    ensures
        r == (s@.subrange(from as int, to as int) == seq![c]),
{
    if to - from == 1 && s[from] == c {
        assert(s@.subrange(from as int, to as int) =~= seq![c]);
        true
    } else {
        let ghost w = seq![c];
        assert(w.len() == 1 && w[0] == c);
        if to - from == 1 {
            assert(s@.subrange(from as int, to as int)[0] != w[0]);
        }
        assert(s@.subrange(from as int, to as int) != w);
        false
    }
}

/// Classifies the tag name `s[from..to]`.
fn classify_skip_or_heading(s: &Vec<char>, from: usize, to: usize) -> (r: Option<TagKind>)
    requires
        from <= to <= s.len(),
    ensures
        r == skip_or_heading(s@.subrange(from as int, to as int)),
{
    if span_is(s, from, to, &['s', 'c', 'r', 'i', 'p', 't']) {
        Some(TagKind::Skip(SkipTag::Script))
    } else if span_is(s, from, to, &['s', 't', 'y', 'l', 'e']) {
        Some(TagKind::Skip(SkipTag::Style))
    } else if span_is(s, from, to, &['n', 'o', 's', 'c', 'r', 'i', 'p', 't']) {
        Some(TagKind::Skip(SkipTag::Noscript))
    } else if span_is(s, from, to, &['i', 'f', 'r', 'a', 'm', 'e']) {
        Some(TagKind::Skip(SkipTag::Iframe))
    } else if span_is(s, from, to, &['s', 'v', 'g']) {
        Some(TagKind::Skip(SkipTag::Svg))
    } else if span_is(s, from, to, &['h', '1']) {
        Some(TagKind::Heading(1))
    } else if span_is(s, from, to, &['h', '2']) {
        Some(TagKind::Heading(2))
    } else if span_is(s, from, to, &['h', '3']) {
        Some(TagKind::Heading(3))
    } else if span_is(s, from, to, &['h', '4']) {
        Some(TagKind::Heading(4))
    } else if span_is(s, from, to, &['h', '5']) {
        Some(TagKind::Heading(5))
    } else if span_is(s, from, to, &['h', '6']) {
        Some(TagKind::Heading(6))
    } else {
        None
    }
}

fn classify_block_or_inline(s: &Vec<char>, from: usize, to: usize) -> (r: TagKind)
    requires
        from <= to <= s.len(),
    ensures
        r == block_or_inline(s@.subrange(from as int, to as int)),
{
    if span_is_char(s, from, to, 'p') {
        TagKind::P
    } else if span_is(s, from, to, &['d', 'i', 'v']) {
        TagKind::Div
    } else if span_is(s, from, to, &['s', 'e', 'c', 't', 'i', 'o', 'n']) || span_is(
        s,
        from,
        to,
        &['a', 'r', 't', 'i', 'c', 'l', 'e'],
    ) || span_is(s, from, to, &['m', 'a', 'i', 'n']) || span_is(
        s,
        from,
        to,
        &['h', 'e', 'a', 'd', 'e', 'r'],
    ) || span_is(s, from, to, &['f', 'o', 'o', 't', 'e', 'r']) {
        TagKind::Sectioning
    } else if span_is(s, from, to, &['b', 'r']) {
        TagKind::Br
    } else if span_is(s, from, to, &['h', 'r']) {
        TagKind::Hr
    } else if span_is(s, from, to, &['u', 'l']) || span_is(s, from, to, &['o', 'l']) {
        TagKind::List
    } else if span_is(s, from, to, &['l', 'i']) {
        TagKind::Li
    } else {
        classify_inline(s, from, to)
    }
}

fn classify_inline(s: &Vec<char>, from: usize, to: usize) -> (r: TagKind)
    requires
        from <= to <= s.len(),
    ensures
        r == inline_kind(s@.subrange(from as int, to as int)),
{
    if span_is(s, from, to, &['s', 't', 'r', 'o', 'n', 'g']) || span_is_char(s, from, to, 'b') {
        TagKind::Strong
    } else if span_is(s, from, to, &['e', 'm']) || span_is_char(s, from, to, 'i') {
        TagKind::Em
    } else if span_is(s, from, to, &['p', 'r', 'e']) {
        TagKind::Pre
    } else if span_is(s, from, to, &['c', 'o', 'd', 'e']) {
        TagKind::Code
    } else if span_is(s, from, to, &['b', 'l', 'o', 'c', 'k', 'q', 'u', 'o', 't', 'e']) {
        TagKind::Blockquote
    } else if span_is_char(s, from, to, 'a') {
        TagKind::Anchor
    } else if span_is(s, from, to, &['t', 'r']) {
        TagKind::Tr
    } else {
        TagKind::Other
    }
}

fn classify(s: &Vec<char>, from: usize, to: usize) -> (r: TagKind)
    requires
        from <= to <= s.len(),
    ensures
        r == tag_kind(s@.subrange(from as int, to as int)),
{
    match classify_skip_or_heading(s, from, to) {
        Some(k) => k,
        None => classify_block_or_inline(s, from, to),
    }
}

/// First position at or after `j` that ends an unquoted attribute value:
/// whitespace, `>`, or the end.
pub open spec fn value_end_from(s: Seq<char>, j: int) -> int
    decreases s.len() - j,
{
    if 0 <= j < s.len() && !is_ws(s[j]) && s[j] != '>' {
        value_end_from(s, j + 1)
    } else {
        j
    }
}

/// The value of attribute `attr` in the tag body `tag`: the first place
/// where `attr=` occurs (ignoring ASCII case), then optional whitespace, then
/// a value in double quotes, in single quotes, or bare up to whitespace or
/// `>`. A quoted value without its closing quote gives `None`.
pub open spec fn attr_value(tag: Seq<char>, attr: Seq<char>) -> Option<Seq<char>> {
    let pat = attr.push('=');
    match find_from(lower_seq(tag), pat, 0) {
        None => None,
        Some(k) => {
            let q = skip_ws_from(tag, k + pat.len());
            if q < tag.len() && (tag[q] == '"' || tag[q] == '\'') {
                let e = char_from(tag, q + 1, tag[q]);
                if e < tag.len() {
                    Some(tag.subrange(q + 1, e))
                } else {
                    None
                }
            } else {
                Some(tag.subrange(q, value_end_from(tag, q)))
            }
        },
    }
}

fn value_end(s: &Vec<char>, j: usize) -> (r: usize)
    requires
        j <= s.len(),
    ensures
        r as int == value_end_from(s@, j as int),
        j <= r <= s.len(),
{
    let mut k = j;
    while k < s.len() && !is_whitespace(s[k]) && s[k] != '>'
        invariant
            j <= k <= s.len(),
            value_end_from(s@, k as int) == value_end_from(s@, j as int),
        decreases s.len() - k,
    {
        k = k + 1;
    }
    k
}

/// The value of attribute `attr` in the tag body `tag`.
fn attribute_value(tag: &Vec<char>, attr: &Vec<char>) -> (r: Option<Vec<char>>)
    ensures
        r is Some <==> attr_value(tag@, attr@) is Some,
        r is Some ==> r->0@ == attr_value(tag@, attr@)->0,
{
    let lt = lower_span(tag, 0, tag.len());
    proof {
        assert(tag@.subrange(0, tag.len() as int) == tag@);
    }
    let mut pat = copy_span(attr, 0, attr.len());
    proof {
        assert(attr@.subrange(0, attr.len() as int) == attr@);
    }
    pat.push('=');
    match find_seq(&lt, &pat) {
        None => None,
        Some(k) => {
            proof {
                lemma_find_bounds(lt@, pat@, 0);
            }
            let q = skip_ws(tag, k + pat.len());
            if q < tag.len() && (tag[q] == '"' || tag[q] == '\'') {
                let e = find_char(tag, q + 1, tag[q]);
                if e < tag.len() {
                    Some(copy_span(tag, q + 1, e))
                } else {
                    None
                }
            } else {
                let e = value_end(tag, q);
                Some(copy_span(tag, q, e))
            }
        },
    }
}

/// Extracts the value of attribute `attr` from the body of a tag
/// (the text between `<` and `>`).
pub fn extract_attribute(tag: &str, attr: &str) -> (r: Option<String>)
    ensures
        r is Some <==> attr_value(tag@, attr@) is Some,
        r is Some ==> r->0@ == attr_value(tag@, attr@)->0,
{
    let t = chars_of(tag);
    let a = chars_of(attr);
    match attribute_value(&t, &a) {
        Some(v) => Some(string_of(&v, 0, v.len())),
        None => None,
    }
}

/// The state of a conversion: output so far, the stack of open skip
/// elements, list depth, and whether a `pre` or `blockquote` is open.
pub struct ConvModel {
    pub out: Seq<char>,
    pub skip: Seq<SkipTag>,
    pub depth: nat,
    pub in_pre: bool,
    pub in_bq: bool,
}

pub open spec fn conv_init() -> ConvModel {
    ConvModel { out: Seq::empty(), skip: Seq::empty(), depth: 0, in_pre: false, in_bq: false }
}

pub open spec fn repeat(c: char, n: nat) -> Seq<char>
    decreases n,
{
    if n == 0 {
        Seq::empty()
    } else {
        repeat(c, (n - 1) as nat).push(c)
    }
}

/// Position of the last frame for `t` in the skip stack.
pub open spec fn rfind_skip(s: Seq<SkipTag>, t: SkipTag) -> Option<int>
    decreases s.len(),
{
    if s.len() == 0 {
        None
    } else if s.last() == t {
        Some(s.len() - 1)
    } else {
        rfind_skip(s.drop_last(), t)
    }
}

pub open spec fn with_out(st: ConvModel, out: Seq<char>) -> ConvModel {
    ConvModel { out: out, ..st }
}

/// Markdown effect of a tag outside any skip element.
pub open spec fn md_effect(st: ConvModel, k: TagKind, closing: bool, tag: Seq<char>) -> ConvModel {
    match k {
        TagKind::Heading(n) => if !closing {
            with_out(st, st.out + seq!['\n'] + repeat('#', n as nat) + seq![' '])
        } else {
            with_out(st, st.out + seq!['\n', '\n'])
        },
        TagKind::P | TagKind::Div | TagKind::Sectioning => if closing {
            with_out(st, st.out + seq!['\n', '\n'])
        } else {
            st
        },
        TagKind::Br => with_out(st, st.out + seq!['\n']),
        TagKind::Hr => if !closing {
            with_out(st, st.out + seq!['\n', '-', '-', '-', '\n'])
        } else {
            st
        },
        TagKind::List => if closing {
            let d: nat = if st.depth > 0 {
                (st.depth - 1) as nat
            } else {
                0
            };
            ConvModel {
                out: if d == 0 {
                    st.out + seq!['\n']
                } else {
                    st.out
                },
                depth: d,
                ..st
            }
        } else {
            ConvModel { depth: st.depth + 1, ..st }
        },
        TagKind::Li => if !closing {
            let d: nat = if st.depth > 0 {
                (st.depth - 1) as nat
            } else {
                0
            };
            with_out(st, st.out + seq!['\n'] + repeat(' ', 2 * d) + seq!['-', ' '])
        } else {
            st
        },
        TagKind::Strong => with_out(st, st.out + seq!['*', '*']),
        TagKind::Em => with_out(st, st.out + seq!['*']),
        TagKind::Pre => ConvModel {
            out: st.out + seq!['\n', '`', '`', '`', '\n'],
            in_pre: !closing,
            ..st
        },
        TagKind::Code => if !st.in_pre {
            with_out(st, st.out + seq!['`'])
        } else {
            st
        },
        TagKind::Blockquote => if !closing {
            ConvModel { out: st.out + seq!['\n', '>', ' '], in_bq: true, ..st }
        } else {
            ConvModel { out: st.out + seq!['\n'], in_bq: false, ..st }
        },
        TagKind::Anchor => if !closing {
            match attr_value(tag, seq!['h', 'r', 'e', 'f']) {
                Some(h) => with_out(st, st.out + seq!['[', ']', '('] + h + seq![')']),
                None => st,
            }
        } else {
            st
        },
        _ => st,
    }
}

/// Plain-text effect of a tag outside any skip element: block-level tags
/// give line breaks.
pub open spec fn text_effect(st: ConvModel, k: TagKind, closing: bool) -> ConvModel {
    let breaks = match k {
        TagKind::P | TagKind::Div | TagKind::Br | TagKind::Heading(_) | TagKind::Li | TagKind::Tr => true,
        _ => false,
    };
    let opens_line = match k {
        TagKind::P | TagKind::Heading(_) => true,
        _ => false,
    };
    if breaks && (closing || k == TagKind::Br) {
        with_out(st, st.out.push('\n'))
    } else if breaks && opens_line {
        with_out(st, st.out.push('\n'))
    } else {
        st
    }
}

/// Start of the name within a lower-cased tag body, and whether it closes.
pub open spec fn tag_closing(lt: Seq<char>) -> bool {
    lt.len() > 0 && lt[0] == '/'
}

pub open spec fn tag_name(lt: Seq<char>) -> Seq<char> {
    let a = skip_ws_from(lt, if tag_closing(lt) { 1 } else { 0 });
    lt.subrange(a, word_end_from(lt, a))
}

/// Effect of the tag with body `tag` (the text between `<` and `>`).
pub open spec fn tag_step(st: ConvModel, tag: Seq<char>, md: bool) -> ConvModel {
    let lt = lower_seq(tag);
    let closing = tag_closing(lt);
    let kind = tag_kind(tag_name(lt));
    match kind {
        TagKind::Skip(t) => if closing {
            match rfind_skip(st.skip, t) {
                Some(p) => ConvModel { skip: st.skip.remove(p), ..st },
                None => st,
            }
        } else if tag.len() > 0 && tag.last() == '/' {
            st
        } else {
            ConvModel { skip: st.skip.push(t), ..st }
        },
        _ => if st.skip.len() > 0 {
            st
        } else if md {
            md_effect(st, kind, closing, tag)
        } else {
            text_effect(st, kind, closing)
        },
    }
}

/// Effect of one decoded text character.
pub open spec fn text_char(st: ConvModel, ch: char, md: bool) -> ConvModel {
    if md && st.in_bq && ch == '\n' {
        with_out(st, st.out + seq!['\n', '>', ' '])
    } else {
        with_out(st, st.out.push(ch))
    }
}

/// One step of the scan at position `i`: the new state and the next position.
pub open spec fn conv_step(cs: Seq<char>, i: int, st: ConvModel, md: bool) -> (ConvModel, int) {
    if cs[i] == '<' {
        let k = char_from(cs, i + 1, '>');
        (tag_step(st, cs.subrange(i + 1, k), md), if k < cs.len() {
            k + 1
        } else {
            k
        })
    } else if st.skip.len() == 0 {
        let (ch, nx) = decode_at(cs, i);
        (text_char(st, ch, md), nx)
    } else {
        (st, i + 1)
    }
}

/// The state after scanning `cs` from position `i`.
pub open spec fn conv_run(cs: Seq<char>, i: int, st: ConvModel, md: bool) -> ConvModel
    decreases cs.len() - i,
{
    if i < 0 || i >= cs.len() {
        st
    } else {
        let (st2, nx) = conv_step(cs, i, st, md);
        if i < nx <= cs.len() {
            conv_run(cs, nx, st2, md)
        } else {
            st2
        }
    }
}

/// What `html_to_markdown` returns for `html`.
pub open spec fn markdown_of(html: Seq<char>) -> Seq<char> {
    clean_spec(conv_run(html, 0, conv_init(), true).out)
}

/// What `html_to_text` returns for `html`.
pub open spec fn text_of(html: Seq<char>) -> Seq<char> {
    clean_spec(conv_run(html, 0, conv_init(), false).out)
}

struct Converter {
    out: Vec<char>,
    skip: Vec<SkipTag>,
    depth: usize,
    in_pre: bool,
    in_bq: bool,
}

impl Converter {
    spec fn model(&self) -> ConvModel {
        ConvModel {
            out: self.out@,
            skip: self.skip@,
            depth: self.depth as nat,
            in_pre: self.in_pre,
            in_bq: self.in_bq,
        }
    }

    fn push_repeat(&mut self, c: char, n: usize)
        ensures
            final(self).model() == with_out(old(self).model(), old(self).out@ + repeat(c, n as nat)),
    {
        let mut k: usize = 0;
        while k < n
            invariant
                k <= n,
                self.model() == with_out(old(self).model(), old(self).out@ + repeat(c, k as nat)),
            decreases n - k,
        {
            self.out.push(c);
            proof {
                assert(repeat(c, (k + 1) as nat) == repeat(c, k as nat).push(c));
            }
            k = k + 1;
        }
    }

    fn push_space_pairs(&mut self, n: usize)
        ensures
            final(self).model() == with_out(old(self).model(), old(self).out@ + repeat(' ', 2 * n as nat)),
    {
        let mut k: usize = 0;
        while k < n
            invariant
                k <= n,
                self.model() == with_out(old(self).model(), old(self).out@ + repeat(' ', 2 * k as nat)),
            decreases n - k,
        {
            self.out.push(' ');
            self.out.push(' ');
            proof {
                assert(repeat(' ', (2 * k + 1) as nat) == repeat(' ', 2 * k as nat).push(' '));
                assert(repeat(' ', (2 * k + 2) as nat) == repeat(' ', (2 * k + 1) as nat).push(' '));
            }
            k = k + 1;
        }
    }

    fn md_effect(&mut self, k: TagKind, closing: bool, tag: &Vec<char>)
        requires
            old(self).depth < usize::MAX,
        ensures
            final(self).model() == md_effect(old(self).model(), k, closing, tag@),
            final(self).depth <= old(self).depth + 1,
    {
        match k {
            TagKind::Heading(n) => {
                if !closing {
                    self.out.push('\n');
                    self.push_repeat('#', n);
                    self.out.push(' ');
                } else {
                    push_all(&mut self.out, &['\n', '\n']);
                }
            },
            TagKind::P | TagKind::Div | TagKind::Sectioning => {
                if closing {
                    push_all(&mut self.out, &['\n', '\n']);
                }
            },
            TagKind::Br => {
                self.out.push('\n');
            },
            TagKind::Hr => {
                if !closing {
                    push_all(&mut self.out, &['\n', '-', '-', '-', '\n']);
                }
            },
            TagKind::List => {
                if closing {
                    if self.depth > 0 {
                        self.depth = self.depth - 1;
                    }
                    if self.depth == 0 {
                        self.out.push('\n');
                    }
                } else {
                    self.depth = self.depth + 1;
                }
            },
            TagKind::Li => {
                if !closing {
                    let d = if self.depth > 0 { self.depth - 1 } else { 0 };
                    self.out.push('\n');
                    self.push_space_pairs(d);
                    push_all(&mut self.out, &['-', ' ']);
                }
            },
            TagKind::Strong => {
                push_all(&mut self.out, &['*', '*']);
            },
            TagKind::Em => {
                self.out.push('*');
            },
            TagKind::Pre => {
                push_all(&mut self.out, &['\n', '`', '`', '`', '\n']);
                self.in_pre = !closing;
            },
            TagKind::Code => {
                if !self.in_pre {
                    self.out.push('`');
                }
            },
            TagKind::Blockquote => {
                if !closing {
                    self.in_bq = true;
                    push_all(&mut self.out, &['\n', '>', ' ']);
                } else {
                    self.in_bq = false;
                    self.out.push('\n');
                }
            },
            TagKind::Anchor => {
                if !closing {
                    let mut href: Vec<char> = Vec::new();
                    push_all(&mut href, &['h', 'r', 'e', 'f']);
                    match attribute_value(tag, &href) {
                        Some(h) => {
                            push_all(&mut self.out, &['[', ']', '(']);
                            push_all(&mut self.out, h.as_slice());
                            self.out.push(')');
                        },
                        None => {},
                    }
                }
            },
            _ => {},
        }
        proof {
            let e = md_effect(old(self).model(), k, closing, tag@);
            assert(self.out@ =~= e.out);
        }
    }

    fn text_effect(&mut self, k: TagKind, closing: bool)
        ensures
            final(self).model() == text_effect(old(self).model(), k, closing),
            final(self).depth == old(self).depth,
    {
        let breaks = match k {
            TagKind::P | TagKind::Div | TagKind::Br | TagKind::Heading(_) | TagKind::Li | TagKind::Tr => true,
            _ => false,
        };
        let opens_line = match k {
            TagKind::P | TagKind::Heading(_) => true,
            _ => false,
        };
        let is_br = match k {
            TagKind::Br => true,
            _ => false,
        };
        if breaks && (closing || is_br) {
            self.out.push('\n');
        } else if breaks && opens_line {
            self.out.push('\n');
        }
    }

    /// Applies the tag whose body is `cs[from..to]`.
    fn tag(&mut self, cs: &Vec<char>, from: usize, to: usize, md: bool)
        requires
            from <= to <= cs.len(),
            old(self).depth < usize::MAX,
        ensures
            final(self).model() == tag_step(old(self).model(), cs@.subrange(from as int, to as int), md),
            final(self).depth <= old(self).depth + 1,
    {
        let tag = copy_span(cs, from, to);
        let lt = lower_span(cs, from, to);
        let closing = lt.len() > 0 && lt[0] == '/';
        let a = skip_ws(&lt, if closing { 1 } else { 0 });
        let b = word_end(&lt, a);
        let kind = classify(&lt, a, b);
        match kind {
            TagKind::Skip(t) => {
                if closing {
                    let mut p = self.skip.len();
                    proof {
                        assert(self.skip@.subrange(0, self.skip.len() as int) == self.skip@);
                    }
                    while p > 0 && self.skip[p - 1] != t
                        invariant
                            p <= self.skip.len(),
                            rfind_skip(self.skip@.subrange(0, p as int), t) == rfind_skip(self.skip@, t),
                        decreases p,
                    {
                        proof {
                            assert(self.skip@.subrange(0, p as int).drop_last() == self.skip@.subrange(0, p - 1));
                        }
                        p = p - 1;
                    }
                    if p > 0 {
                        self.skip.remove(p - 1);
                    }
                } else if !(tag.len() > 0 && tag[tag.len() - 1] == '/') {
                    self.skip.push(t);
                }
            },
            _ => {
                if self.skip.len() > 0 {
                } else if md {
                    self.md_effect(kind, closing, &tag);
                } else {
                    self.text_effect(kind, closing);
                }
            },
        }
    }

    fn text_char(&mut self, ch: char, md: bool)
        ensures
            final(self).model() == text_char(old(self).model(), ch, md),
            final(self).depth == old(self).depth,
    {
        if md && self.in_bq && ch == '\n' {
            push_all(&mut self.out, &['\n', '>', ' ']);
        } else {
            self.out.push(ch);
        }
    }
}

/// Scans `cs` once, from the start, in Markdown or plain-text mode.
fn convert(cs: &Vec<char>, md: bool) -> (r: Vec<char>)
    ensures
        r@ == conv_run(cs@, 0, conv_init(), md).out,
{
    let mut cv = Converter { out: Vec::new(), skip: Vec::new(), depth: 0, in_pre: false, in_bq: false };
    let mut i: usize = 0;
    while i < cs.len()
        invariant
            i <= cs.len(),
            cv.depth <= i,
            conv_run(cs@, i as int, cv.model(), md) == conv_run(cs@, 0, conv_init(), md),
        decreases cs.len() - i,
    {
        let ghost st = cv.model();
        let ghost i0 = i as int;
        if cs[i] == '<' {
            let k = find_char(cs, i + 1, '>');
            cv.tag(cs, i + 1, k, md);
            i = if k < cs.len() { k + 1 } else { k };
        } else if cv.skip.len() == 0 {
            let (ch, nx) = decode_entity(cs, i);
            cv.text_char(ch, md);
            i = nx;
        } else {
            i = i + 1;
        }
        proof {
            let (st2, nx) = conv_step(cs@, i0, st, md);
            assert(st2 == cv.model() && nx == i);
        }
    }
    cv.out
}

/// Converts HTML to Markdown in one forward pass, then normalises whitespace.
pub fn html_to_markdown(html: &str) -> (r: String)
    ensures
        r@ == markdown_of(html@),
        normalized(r@),
{
    let cs = chars_of(html);
    let out = convert(&cs, true);
    clean_chars(&out)
}

/// Converts HTML to plain text in one forward pass, then normalises whitespace.
pub fn html_to_text(html: &str) -> (r: String)
    ensures
        r@ == text_of(html@),
        normalized(r@),
{
    let cs = chars_of(html);
    let out = convert(&cs, false);
    clean_chars(&out)
}

pub open spec fn contains(hay: Seq<char>, needle: Seq<char>) -> bool {
    find_from(hay, needle, 0) is Some
}

pub open spec fn starts_with(s: Seq<char>, p: Seq<char>) -> bool {
    p.len() <= s.len() && s.subrange(0, p.len() as int) == p
}

/// A declared content type names HTML: it holds `text/html` or
/// `application/xhtml`, ignoring ASCII case.
pub open spec fn html_by_type(content_type: Option<String>) -> bool {
    match content_type {
        Some(ct) => contains(lower_seq(ct@), seq!['t', 'e', 'x', 't', '/', 'h', 't', 'm', 'l'])
            || contains(
            lower_seq(ct@),
            seq!['a', 'p', 'p', 'l', 'i', 'c', 'a', 't', 'i', 'o', 'n', '/', 'x', 'h', 't', 'm', 'l'],
        ),
        None => false,
    }
}

/// A body looks like HTML: after leading whitespace it starts with
/// `<!doctype` or `<html`, ignoring ASCII case.
pub open spec fn html_by_body(body: Seq<char>) -> bool {
    let t = lower_seq(body.subrange(skip_ws_from(body, 0), body.len() as int));
    starts_with(t, seq!['<', '!', 'd', 'o', 'c', 't', 'y', 'p', 'e']) || starts_with(
        t,
        seq!['<', 'h', 't', 'm', 'l'],
    )
}

/// Whether `s[j..]`, lower-cased, starts with `lit`.
pub fn starts_with_lower(s: &Vec<char>, j: usize, lit: &[char]) -> (r: bool)
    requires
        j <= s.len(),
    ensures
        r == starts_with(lower_seq(s@.subrange(j as int, s.len() as int)), lit@),
{
    let ghost t = lower_seq(s@.subrange(j as int, s.len() as int));
    if s.len() - j < lit.len() {
        return false;
    }
    let mut k: usize = 0;
    while k < lit.len()
        invariant
            k <= lit.len(),
            lit.len() <= s.len() - j,
            j <= s.len(),
            t == lower_seq(s@.subrange(j as int, s.len() as int)),
            forall|m: int| 0 <= m < k ==> t[m] == lit@[m],
        decreases lit.len() - k,
    {
        if to_lower(s[j + k]) != lit[k] {
            assert(t.subrange(0, lit.len() as int)[k as int] != lit@[k as int]);
            return false;
        }
        k = k + 1;
    }
    assert(t.subrange(0, lit.len() as int) =~= lit@);
    true
}

/// Whether the lower-cased `s` contains `lit`.
pub fn contains_lower(s: &Vec<char>, lit: &[char]) -> (r: bool)
    ensures
        r == contains(lower_seq(s@), lit@),
{
    let lt = lower_span(s, 0, s.len());
    proof {
        assert(s@.subrange(0, s.len() as int) == s@);
    }
    let mut pat: Vec<char> = Vec::new();
    push_all(&mut pat, lit);
    assert(pat@ == lit@);
    find_seq(&lt, &pat).is_some()
}

/// Whether content is HTML, by its declared content type or by how its body starts.
pub fn is_html(content_type: &Option<String>, body: &str) -> (r: bool)
    ensures
        r == (html_by_type(*content_type) || html_by_body(body@)),
{
    match content_type {
        Some(ct) => {
            let cc = chars_of(ct.as_str());
            if contains_lower(&cc, &['t', 'e', 'x', 't', '/', 'h', 't', 'm', 'l']) || contains_lower(
                &cc,
                &['a', 'p', 'p', 'l', 'i', 'c', 'a', 't', 'i', 'o', 'n', '/', 'x', 'h', 't', 'm', 'l'],
            ) {
                return true;
            }
        },
        None => {},
    }
    let bc = chars_of(body);
    let j = skip_ws(&bc, 0);
    starts_with_lower(&bc, j, &['<', '!', 'd', 'o', 'c', 't', 'y', 'p', 'e']) || starts_with_lower(
        &bc,
        j,
        &['<', 'h', 't', 'm', 'l'],
    )
}

} // verus!
