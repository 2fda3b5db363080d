//! URLs as the fetchers see them: host and path segments.
use vstd::prelude::*;
use crate::text::{chars_of, find_char, char_from};
use crate::classify::parse_content_disposition_filename;

verus! {

/// What parsing a URL gives: its host, if any, and its path segments, if
/// the URL has a hierarchical path.
pub uninterp spec fn url_parts(s: Seq<char>) -> Option<(Option<Seq<char>>, Option<Seq<Seq<char>>>)>;

/// A parsed URL, reduced to what the fetchers read.
#[derive(Clone, Debug)]
pub struct ParsedUrl {
    /// The host, as `url::Url::host_str` gives it.
    pub host: Option<String>,
    /// The path segments, as `url::Url::path_segments` gives them.
    pub segments: Option<Vec<String>>,
}

pub open spec fn opt_view(o: Option<String>) -> Option<Seq<char>> {
    match o {
        Some(s) => Some(s@),
        None => None,
    }
}

pub open spec fn segments_view(o: Option<Vec<String>>) -> Option<Seq<Seq<char>>> {
    match o {
        Some(v) => Some(v@.map_values(|s: String| s@)),
        None => None,
    }
}

impl View for ParsedUrl {
    type V = (Option<Seq<char>>, Option<Seq<Seq<char>>>);

    open spec fn view(&self) -> Self::V {
        (opt_view(self.host), segments_view(self.segments))
    }
}

/// Relies on `url::Url::parse`, read through `host_str` and `path_segments`:
/// the parts depend on the text of the URL alone.
#[verifier::external_body]
fn parse_url_parts(s: &str) -> (r: Option<ParsedUrl>)
    ensures
        r is Some <==> url_parts(s@) is Some,
        r is Some ==> r->0@ == url_parts(s@)->0,
{
    match url::Url::parse(s) {
        Ok(u) => Some(ParsedUrl {
            host: u.host_str().map(str::to_string),
            segments: u.path_segments().map(|p| p.map(str::to_string).collect()),
        }),
        Err(_) => None,
    }
}

impl ParsedUrl {
    /// Parses `s` as a URL.
    pub fn parse(s: &str) -> (r: Option<ParsedUrl>)
        ensures
            r is Some <==> url_parts(s@) is Some,
            r is Some ==> r->0@ == url_parts(s@)->0,
    {
        parse_url_parts(s)
    }
}

/// The last path segment, when it is not empty and holds a `.`.
pub open spec fn url_filename(u: (Option<Seq<char>>, Option<Seq<Seq<char>>>)) -> Option<Seq<char>> {
    match u.1 {
        Some(segs) => if segs.len() > 0 && segs.last().len() > 0 && segs.last().contains('.') {
            Some(segs.last())
        } else {
            None
        },
        None => None,
    }
}

/// The file name that the URL path ends in, if any.
pub fn filename_from_url(url: &ParsedUrl) -> (r: Option<String>)
    ensures
        r is Some <==> url_filename(url@) is Some,
        r is Some ==> r->0@ == url_filename(url@)->0,
{
    match &url.segments {
        Some(segs) => {
            if segs.len() == 0 {
                return None;
            }
            let last = &segs[segs.len() - 1];
            assert(last@ == segs@.map_values(|s: String| s@).last());
            let cs = chars_of(last.as_str());
            let k = find_char(&cs, 0, '.');
            proof {
                lemma_char_from_finds(cs@, 0, '.');
            }
            if cs.len() > 0 && k < cs.len() {
                Some(last.clone())
            } else {
                None
            }
        },
        None => None,
    }
}

proof fn lemma_char_from_finds(s: Seq<char>, j: int, c: char)
    requires
        0 <= j <= s.len(),
    ensures
        char_from(s, j, c) < s.len() <==> exists|k: int| j <= k < s.len() && s[k] == c,
    decreases s.len() - j,
{
    if j < s.len() && s[j] != c {
        lemma_char_from_finds(s, j + 1, c);
        if exists|k: int| j <= k < s.len() && s[k] == c {
            let k = choose|k: int| j <= k < s.len() && s[k] == c;
            assert(j + 1 <= k);
        }
    }
}

/// The file name of a download: from `Content-Disposition` when it names
/// one, else from the URL path.
pub open spec fn download_filename(disposition: Option<Seq<char>>, url: Seq<char>) -> Option<Seq<char>> {
    let from_header = match disposition {
        Some(d) => crate::classify::disposition_filename(d),
        None => None,
    };
    if from_header is Some {
        from_header
    } else {
        match url_parts(url) {
            Some(u) => url_filename(u),
            None => None,
        }
    }
}

/// Picks the file name of a response from its `Content-Disposition` value
/// and its URL.
pub fn extract_filename(disposition: &Option<String>, url: &str) -> (r: Option<String>)
    ensures
        r is Some <==> download_filename(opt_view(*disposition), url@) is Some,
        r is Some ==> r->0@ == download_filename(opt_view(*disposition), url@)->0,
{
    match disposition {
        Some(d) => {
            match parse_content_disposition_filename(d.as_str()) {
                Some(f) => {
                    return Some(f);
                },
                None => {},
            }
        },
        None => {},
    }
    match ParsedUrl::parse(url) {
        Some(u) => filename_from_url(&u),
        None => None,
    }
}

} // verus!
