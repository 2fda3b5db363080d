//! The GitHub repository fetcher: matches repository root URLs and renders
//! repository metadata and README as Markdown.
use vstd::prelude::*;
use vstd::utf8::{valid_utf8, decode_utf8};
use crate::types::WebFetchResponse;
use crate::url::{ParsedUrl, opt_view};
use crate::text::{is_ws, is_whitespace, chars_of, decimal, decimal_string};

verus! {

/// Number of first path segments that GitHub reserves for its own pages.
pub const NUM_RESERVED: usize = 20;

/// First path segments that are GitHub pages rather than owners.
pub open spec fn reserved_segment(i: int) -> Seq<char> {
    if i == 0 { "settings"@ } else if i == 1 { "explore"@ } else if i == 2 { "trending"@ }
    else if i == 3 { "collections"@ } else if i == 4 { "events"@ } else if i == 5 { "sponsors"@ }
    else if i == 6 { "notifications"@ } else if i == 7 { "marketplace"@ } else if i == 8 { "pulls"@ }
    else if i == 9 { "issues"@ } else if i == 10 { "codespaces"@ } else if i == 11 { "features"@ }
    else if i == 12 { "enterprise"@ } else if i == 13 { "organizations"@ } else if i == 14 { "pricing"@ }
    else if i == 15 { "about"@ } else if i == 16 { "team"@ } else if i == 17 { "security"@ }
    else if i == 18 { "login"@ } else { "join"@ }
}

fn reserved_str(i: usize) -> (r: &'static str)
    requires
        i < NUM_RESERVED,
    ensures
        r@ == reserved_segment(i as int),
{
    match i {
        0 => "settings", 1 => "explore", 2 => "trending", 3 => "collections", 4 => "events",
        5 => "sponsors", 6 => "notifications", 7 => "marketplace", 8 => "pulls", 9 => "issues",
        10 => "codespaces", 11 => "features", 12 => "enterprise", 13 => "organizations",
        14 => "pricing", 15 => "about", 16 => "team", 17 => "security", 18 => "login", _ => "join",
    }
}

pub open spec fn is_reserved(s: Seq<char>) -> bool {
    exists|i: int| 0 <= i < NUM_RESERVED && #[trigger] reserved_segment(i) == s
}

/// Owner and repository of a repository root URL: host `github.com`, exactly
/// two non-empty path segments, and an owner that is not a reserved page.
pub open spec fn github_repo_of(u: (Option<Seq<char>>, Option<Seq<Seq<char>>>)) -> Option<(Seq<char>, Seq<char>)> {
    match u.1 {
        Some(segs) => if u.0 == Some("github.com"@) && segs.len() == 2 && segs[0].len() > 0
            && segs[1].len() > 0 && !is_reserved(segs[0]) {
            Some((segs[0], segs[1]))
        } else {
            None
        },
        None => None,
    }
}

fn is_reserved_owner(owner: &String) -> (r: bool)
    ensures
        r == is_reserved(owner@),
{
    let mut i: usize = 0;
    while i < NUM_RESERVED
        invariant
            i <= NUM_RESERVED,
            forall|j: int| 0 <= j < i ==> #[trigger] reserved_segment(j) != owner@,
        decreases NUM_RESERVED - i,
    {
        if str_eq(owner, reserved_str(i)) {
            assert(reserved_segment(i as int) == owner@);
            return true;
        }
        i = i + 1;
    }
    false
}

fn str_eq(a: &String, b: &str) -> (r: bool)
    ensures
        r == (a@ == b@),
{
    let bs = String::from_str(b);
    *a == bs
}

/// The fetcher for GitHub repository root URLs.
#[derive(Clone, Copy, Debug)]
pub struct GitHubRepoFetcher;

impl GitHubRepoFetcher {
    pub fn new() -> (r: GitHubRepoFetcher) {
        GitHubRepoFetcher
    }

    pub fn name(&self) -> (r: &'static str)
        ensures
            r@ == "github_repo"@,
    {
        "github_repo"
    }

    /// Owner and repository named by a repository root URL.
    pub fn parse_github_url(url: &ParsedUrl) -> (r: Option<(String, String)>)
        ensures
            r is Some <==> github_repo_of(url@) is Some,
            r is Some ==> (r->0).0@ == (github_repo_of(url@)->0).0 && (r->0).1@ == (github_repo_of(url@)->0).1,
    {
        let host_ok = match &url.host {
            Some(h) => str_eq(h, "github.com"),
            None => false,
        };
        match &url.segments {
            Some(segs) => {
                proof {
                    assert(segs@.map_values(|s: String| s@).len() == segs@.len());
                }
                if !host_ok || segs.len() != 2 {
                    return None;
                }
                let owner = &segs[0];
                let repo = &segs[1];
                proof {
                    assert(owner@ == segs@.map_values(|s: String| s@)[0]);
                    assert(repo@ == segs@.map_values(|s: String| s@)[1]);
                }
                if owner.as_str().is_empty() || repo.as_str().is_empty() {
                    return None;
                }
                if is_reserved_owner(owner) {
                    return None;
                }
                Some((owner.clone(), repo.clone()))
            },
            None => None,
        }
    }

    /// Matches repository root URLs.
    pub fn matches(&self, url: &ParsedUrl) -> (r: bool)
        ensures
            r == github_repo_of(url@) is Some,
    {
        Self::parse_github_url(url).is_some()
    }
}

/// Repository metadata, as the GitHub API describes it (the fields used here).
#[derive(Debug)]
pub struct GitHubRepo {
    pub name: String,
    pub full_name: String,
    pub description: Option<String>,
    pub html_url: String,
    pub homepage: Option<String>,
    pub stargazers_count: u64,
    pub forks_count: u64,
    pub open_issues_count: u64,
    pub language: Option<String>,
    pub license: Option<GitHubLicense>,
    pub default_branch: String,
    pub created_at: String,
    pub updated_at: String,
    pub pushed_at: String,
    pub topics: Option<Vec<String>>,
    pub archived: bool,
    pub fork: bool,
    pub owner: GitHubOwner,
}

#[derive(Debug)]
pub struct GitHubLicense {
    pub name: String,
    pub spdx_id: Option<String>,
}

#[derive(Debug)]
pub struct GitHubOwner {
    pub login: String,
    pub owner_type: String,
}

/// `parts` joined with `sep` between neighbours.
pub open spec fn join(parts: Seq<Seq<char>>, sep: Seq<char>) -> Seq<char>
    decreases parts.len(),
{
    if parts.len() == 0 {
        Seq::empty()
    } else if parts.len() == 1 {
        parts[0]
    } else {
        join(parts.drop_last(), sep) + sep + parts.last()
    }
}

pub open spec fn line(label: Seq<char>, value: Seq<char>) -> Seq<char> {
    label + value + "\n"@
}

pub open spec fn opt_line(label: Seq<char>, value: Option<String>) -> Seq<char> {
    match value {
        Some(v) => line(label, v@),
        None => Seq::empty(),
    }
}

pub open spec fn repo_header(repo: &GitHubRepo) -> Seq<char> {
    let description = match repo.description {
        Some(d) => d@ + "\n\n"@,
        None => Seq::empty(),
    };
    "# "@ + repo.full_name@ + "\n\n"@ + description + "## Repository Info\n\n"@
}

pub open spec fn repo_stats(repo: &GitHubRepo) -> Seq<char> {
    "- **Stars:** "@ + decimal(repo.stargazers_count as nat) + "\n- **Forks:** "@ + decimal(
        repo.forks_count as nat,
    ) + "\n- **Open Issues:** "@ + decimal(repo.open_issues_count as nat) + "\n"@
}

pub open spec fn repo_details(repo: &GitHubRepo) -> Seq<char> {
    let license = match repo.license {
        Some(l) => line(
            "- **License:** "@,
            match l.spdx_id {
                Some(id) => id@,
                None => l.name@,
            },
        ),
        None => Seq::empty(),
    };
    let topics = match repo.topics {
        Some(ts) => if ts@.len() > 0 {
            line("- **Topics:** "@, join(ts@.map_values(|t: String| t@), ", "@))
        } else {
            Seq::empty()
        },
        None => Seq::empty(),
    };
    let homepage = match repo.homepage {
        Some(h) => if h@.len() > 0 {
            line("- **Homepage:** "@, h@)
        } else {
            Seq::empty()
        },
        None => Seq::empty(),
    };
    opt_line("- **Language:** "@, repo.language) + license + topics + line("- **URL:** "@, repo.html_url@)
        + homepage
}

pub open spec fn repo_footer(repo: &GitHubRepo, readme: Option<Seq<char>>) -> Seq<char> {
    let archived = if repo.archived {
        "- **Status:** Archived\n"@
    } else {
        Seq::empty()
    };
    let fork = if repo.fork {
        "- **Fork:** Yes\n"@
    } else {
        Seq::empty()
    };
    let readme_part = match readme {
        Some(r) => "\n---\n\n## README\n\n"@ + r,
        None => Seq::empty(),
    };
    line("- **Default Branch:** "@, repo.default_branch@) + "- **Owner:** "@ + repo.owner.login@
        + " ("@ + repo.owner.owner_type@ + ")\n"@ + archived + fork + line(
        "- **Created:** "@,
        repo.created_at@,
    ) + line("- **Last Updated:** "@, repo.updated_at@) + line("- **Last Push:** "@, repo.pushed_at@)
        + readme_part
}

/// The Markdown page for a repository and its README.
pub open spec fn repo_markdown(repo: &GitHubRepo, readme: Option<Seq<char>>) -> Seq<char> {
    repo_header(repo) + repo_stats(repo) + repo_details(repo) + repo_footer(repo, readme)
}

fn push_line(out: &mut String, label: &str, value: &str)
    ensures
        final(out)@ == old(out)@ + line(label@, value@),
{
    out.append(label);
    out.append(value);
    out.append("\n");
    assert(final(out)@ =~= old(out)@ + line(label@, value@));
}

fn join_strings(parts: &Vec<String>, sep: &str) -> (r: String)
    ensures
        r@ == join(parts@.map_values(|t: String| t@), sep@),
{
    let ghost ps = parts@.map_values(|t: String| t@);
    let mut r = String::new();
    let mut i: usize = 0;
    while i < parts.len()
        invariant
            i <= parts.len(),
            ps == parts@.map_values(|t: String| t@),
            r@ == join(ps.take(i as int), sep@),
        decreases parts.len() - i,
    {
        proof {
            assert(ps.take(i + 1).drop_last() == ps.take(i as int));
            assert(ps.take(i + 1).last() == parts@[i as int]@);
        }
        if i > 0 {
            r.append(sep);
        } else {
            assert(ps.take(0) =~= Seq::<Seq<char>>::empty());
            assert(r@ =~= Seq::<char>::empty());
        }
        r.append(parts[i].as_str());
        proof {
            if i == 0 {
                assert(ps.take(1)[0] == parts@[0]@);
                assert(r@ =~= ps.take(1)[0]);
            }
        }
        i = i + 1;
    }
    assert(ps.take(parts.len() as int) == ps);
    r
}

/// Renders repository metadata and README as Markdown.
pub fn format_github_repo_response(repo: &GitHubRepo, readme: Option<&str>) -> (r: String)
    ensures
        r@ == repo_markdown(
            repo,
            match readme {
                Some(t) => Some(t@),
                None => None,
            },
        ),
{
    let mut head = String::from_str("# ");
    head.append(repo.full_name.as_str());
    head.append("\n\n");
    match &repo.description {
        Some(d) => {
            head.append(d.as_str());
            head.append("\n\n");
        },
        None => {},
    }
    head.append("## Repository Info\n\n");
    assert(head@ =~= repo_header(repo));

    let mut stats = String::from_str("- **Stars:** ");
    stats.append(decimal_string(repo.stargazers_count).as_str());
    stats.append("\n- **Forks:** ");
    stats.append(decimal_string(repo.forks_count).as_str());
    stats.append("\n- **Open Issues:** ");
    stats.append(decimal_string(repo.open_issues_count).as_str());
    stats.append("\n");

    let mut details = String::new();
    match &repo.language {
        Some(l) => push_line(&mut details, "- **Language:** ", l.as_str()),
        None => {},
    }
    match &repo.license {
        Some(l) => {
            let id = match &l.spdx_id {
                Some(id) => id.as_str(),
                None => l.name.as_str(),
            };
            push_line(&mut details, "- **License:** ", id);
        },
        None => {},
    }
    match &repo.topics {
        Some(ts) => {
            if ts.len() > 0 {
                let joined = join_strings(ts, ", ");
                push_line(&mut details, "- **Topics:** ", joined.as_str());
            }
        },
        None => {},
    }
    push_line(&mut details, "- **URL:** ", repo.html_url.as_str());
    match &repo.homepage {
        Some(h) => {
            if !h.as_str().is_empty() {
                push_line(&mut details, "- **Homepage:** ", h.as_str());
            }
        },
        None => {},
    }
    assert(details@ =~= repo_details(repo));

    let mut foot = String::new();
    push_line(&mut foot, "- **Default Branch:** ", repo.default_branch.as_str());
    foot.append("- **Owner:** ");
    foot.append(repo.owner.login.as_str());
    foot.append(" (");
    foot.append(repo.owner.owner_type.as_str());
    foot.append(")\n");
    if repo.archived {
        foot.append("- **Status:** Archived\n");
    }
    if repo.fork {
        foot.append("- **Fork:** Yes\n");
    }
    push_line(&mut foot, "- **Created:** ", repo.created_at.as_str());
    push_line(&mut foot, "- **Last Updated:** ", repo.updated_at.as_str());
    push_line(&mut foot, "- **Last Push:** ", repo.pushed_at.as_str());
    match readme {
        Some(t) => {
            foot.append("\n---\n\n## README\n\n");
            foot.append(t);
        },
        None => {},
    }
    let ghost rm = match readme {
        Some(t) => Some(t@),
        None => None,
    };
    assert(foot@ =~= repo_footer(repo, rm));

    let mut out = head;
    out.append(stats.as_str());
    out.append(details.as_str());
    out.append(foot.as_str());
    out
}

/// Value of a base64 character; `=` (padding) counts as zero.
pub open spec fn b64_value(c: char) -> Option<u8> {
    if 'A' <= c && c <= 'Z' {
        Some((c as u32 - 'A' as u32) as u8)
    } else if 'a' <= c && c <= 'z' {
        Some((c as u32 - 'a' as u32 + 26) as u8)
    } else if '0' <= c && c <= '9' {
        Some((c as u32 - '0' as u32 + 52) as u8)
    } else if c == '+' {
        Some(62)
    } else if c == '/' {
        Some(63)
    } else if c == '=' {
        Some(0)
    } else {
        None
    }
}

fn b64_char_value(c: char) -> (r: Option<u8>)
    ensures
        r == b64_value(c),
        r is Some ==> r->0 < 64,
{
    if 'A' <= c && c <= 'Z' {
        Some((c as u32 - 'A' as u32) as u8)
    } else if 'a' <= c && c <= 'z' {
        Some((c as u32 - 'a' as u32 + 26) as u8)
    } else if '0' <= c && c <= '9' {
        Some((c as u32 - '0' as u32 + 52) as u8)
    } else if c == '+' {
        Some(62)
    } else if c == '/' {
        Some(63)
    } else if c == '=' {
        Some(0)
    } else {
        None
    }
}

/// The bytes of one group of four characters: three bytes, less one for
/// each of the last two characters that is `=`.
pub open spec fn b64_group(s: Seq<char>, g: int) -> Option<Seq<u8>> {
    let (c0, c1, c2, c3) = (s[4 * g], s[4 * g + 1], s[4 * g + 2], s[4 * g + 3]);
    match (b64_value(c0), b64_value(c1), b64_value(c2), b64_value(c3)) {
        (Some(a), Some(b), Some(c), Some(d)) => {
            let x0 = ((a as int * 4) % 256 + b as int / 16) as u8;
            let x1 = ((b as int * 16) % 256 + c as int / 4) as u8;
            let x2 = ((c as int * 64) % 256 + d as int) as u8;
            Some(
                seq![x0] + (if c2 != '=' {
                    seq![x1]
                } else {
                    Seq::empty()
                }) + (if c3 != '=' {
                    seq![x2]
                } else {
                    Seq::empty()
                }),
            )
        },
        _ => None,
    }
}

/// The bytes of the first `n` groups of `s`.
pub open spec fn b64_groups(s: Seq<char>, n: int) -> Option<Seq<u8>>
    decreases n,
{
    if n <= 0 {
        Some(Seq::empty())
    } else {
        match (b64_groups(s, n - 1), b64_group(s, n - 1)) {
            (Some(p), Some(g)) => Some(p + g),
            _ => None,
        }
    }
}

/// Standard base64 decoding of `s`, whose length must be a multiple of four.
pub open spec fn b64_decode(s: Seq<char>) -> Option<Seq<u8>> {
    if s.len() % 4 != 0 {
        None
    } else {
        b64_groups(s, (s.len() / 4) as int)
    }
}

proof fn lemma_groups_none(s: Seq<char>, i: int, n: int)
    requires
        0 <= i <= n,
        b64_groups(s, i) is None,
    ensures
        b64_groups(s, n) is None,
    decreases n - i,
{
    if i < n {
        lemma_groups_none(s, i + 1, n);
    }
}

/// Decodes standard base64 text.
pub fn base64_decode(input: &str) -> (r: Option<Vec<u8>>)
    ensures
        r is Some <==> b64_decode(input@) is Some,
        r is Some ==> r->0@ == b64_decode(input@)->0,
{
    let cs = chars_of(input);
    if cs.len() % 4 != 0 {
        return None;
    }
    let n = cs.len() / 4;
    let mut out: Vec<u8> = Vec::new();
    let mut g: usize = 0;
    while g < n
        invariant
            n == cs.len() / 4,
            cs.len() % 4 == 0,
            cs@ == input@,
            g <= n,
            b64_groups(cs@, g as int) == Some(out@),
        decreases n - g,
    {
        let c0 = cs[4 * g];
        let c1 = cs[4 * g + 1];
        let c2 = cs[4 * g + 2];
        let c3 = cs[4 * g + 3];
        match (b64_char_value(c0), b64_char_value(c1), b64_char_value(c2), b64_char_value(c3)) {
            (Some(a), Some(b), Some(c), Some(d)) => {
                let x0: u8 = (a << 2) | (b >> 4);
                let x1: u8 = (b << 4) | (c >> 2);
                let x2: u8 = (c << 6) | d;
                assert(x0 == ((a as int * 4) % 256 + b as int / 16) as u8) by (bit_vector)
                    requires
                        a < 64 && b < 64,
                        x0 == (a << 2) | (b >> 4),
                ;
                assert(x1 == ((b as int * 16) % 256 + c as int / 4) as u8) by (bit_vector)
                    requires
                        b < 64 && c < 64,
                        x1 == (b << 4) | (c >> 2),
                ;
                assert(x2 == ((c as int * 64) % 256 + d as int) as u8) by (bit_vector)
                    requires
                        c < 64 && d < 64,
                        x2 == (c << 6) | d,
                ;
                let ghost before = out@;
                out.push(x0);
                if c2 != '=' {
                    out.push(x1);
                }
                if c3 != '=' {
                    out.push(x2);
                }
                proof {
                    let grp = b64_group(cs@, g as int)->0;
                    assert(out@ =~= before + grp);
                }
            },
            _ => {
                proof {
                    lemma_groups_none(cs@, g + 1, n as int);
                }
                return None;
            },
        }
        g = g + 1;
    }
    Some(out)
}

/// Relies on `String::from_utf8`: `Some` exactly for valid UTF-8, holding
/// the decoded text.
#[verifier::external_body]
fn utf8_string(b: Vec<u8>) -> (r: Option<String>)
    ensures
        r is Some <==> valid_utf8(b@),
        r is Some ==> r->0@ == decode_utf8(b@),
{
    String::from_utf8(b).ok()
}

/// `s` without its whitespace characters.
pub open spec fn strip_ws(s: Seq<char>) -> Seq<char> {
    s.filter(|c: char| !is_ws(c))
}

/// The text of base64 content split over lines (as the GitHub API sends
/// README files): whitespace dropped, decoded, read as UTF-8.
pub open spec fn base64_text(encoded: Seq<char>) -> Option<Seq<char>> {
    match b64_decode(strip_ws(encoded)) {
        Some(b) => if valid_utf8(b) {
            Some(decode_utf8(b))
        } else {
            None
        },
        None => None,
    }
}

/// Decodes base64 content with line breaks into text.
pub fn decode_base64_content(encoded: &str) -> (r: Option<String>)
    ensures
        r is Some <==> base64_text(encoded@) is Some,
        r is Some ==> r->0@ == base64_text(encoded@)->0,
{
    let cs = chars_of(encoded);
    let mut cleaned = String::new();
    let mut i: usize = 0;
    while i < cs.len()
        invariant
            i <= cs.len(),
            cleaned@ == strip_ws(cs@.take(i as int)),
        decreases cs.len() - i,
    {
        proof {
            assert(cs@.take(i + 1).drop_last() == cs@.take(i as int));
            reveal(Seq::filter);
        }
        if !is_whitespace(cs[i]) {
            cleaned.push(cs[i]);
        }
        i = i + 1;
    }
    proof {
        assert(cs@.take(cs.len() as int) == cs@);
    }
    match base64_decode(cleaned.as_str()) {
        Some(bytes) => utf8_string(bytes),
        None => None,
    }
}

/// Is a status code in the success range 200 to 299.
pub open spec fn is_success(status: u16) -> bool {
    200 <= status && status <= 299
}

/// The explanation for an unsuccessful repository lookup.
pub open spec fn api_error_message(owner: Seq<char>, repo: Seq<char>, status: u16) -> Seq<char> {
    if status == 404 {
        "Repository "@ + owner + "/"@ + repo + " not found"@
    } else if status == 403 {
        "GitHub API rate limit exceeded"@
    } else {
        "GitHub API error: HTTP "@ + decimal(status as nat)
    }
}

impl GitHubRepoFetcher {
    /// The API address of a repository's metadata.
    pub fn repo_api_url(owner: &str, repo: &str) -> (r: String)
        ensures
            r@ == "https://api.github.com/repos/"@ + owner@ + "/"@ + repo@,
    {
        let mut u = String::from_str("https://api.github.com/repos/");
        u.append(owner);
        u.append("/");
        u.append(repo);
        u
    }

    /// The API address of a repository's README.
    pub fn readme_api_url(owner: &str, repo: &str) -> (r: String)
        ensures
            r@ == "https://api.github.com/repos/"@ + owner@ + "/"@ + repo@ + "/readme"@,
    {
        let mut u = Self::repo_api_url(owner, repo);
        u.append("/readme");
        u
    }

    /// The response for an unsuccessful metadata lookup: the API status and
    /// an explanation; `None` when the status is a success.
    pub fn status_response(url: &str, owner: &str, repo: &str, status: u16) -> (r: Option<WebFetchResponse>)
        ensures
            r is None <==> is_success(status),
            r is Some ==> ({
                let resp = r->0;
                &&& resp.url@ == url@
                &&& resp.status_code == status
                &&& opt_view(resp.error) == Some(api_error_message(owner@, repo@, status))
                &&& resp.content is None && resp.content_type is None && resp.format is None
                &&& resp.size is None && resp.truncated is None && resp.method is None
                &&& resp.last_modified is None && resp.filename is None
            }),
    {
        if 200 <= status && status <= 299 {
            return None;
        }
        let msg = if status == 404 {
            let mut m = String::from_str("Repository ");
            m.append(owner);
            m.append("/");
            m.append(repo);
            m.append(" not found");
            m
        } else if status == 403 {
            String::from_str("GitHub API rate limit exceeded")
        } else {
            let mut m = String::from_str("GitHub API error: HTTP ");
            m.append(decimal_string(status as u64).as_str());
            m
        };
        let mut resp = WebFetchResponse::default();
        resp.url = String::from_str(url);
        resp.status_code = status;
        resp.error = Some(msg);
        Some(resp)
    }

    /// The README text from the API's answer: only base64 content is decoded.
    pub fn readme_text(encoding: &str, content: &str) -> (r: Option<String>)
        ensures
            encoding@ != "base64"@ ==> r is None,
            encoding@ == "base64"@ ==> (r is Some <==> base64_text(content@) is Some),
            r is Some ==> r->0@ == base64_text(content@)->0,
    {
        let enc = String::from_str(encoding);
        if str_eq(&enc, "base64") {
            decode_base64_content(content)
        } else {
            None
        }
    }

    /// The response for a repository: its Markdown page, status 200.
    pub fn repo_response(url: &str, repo: &GitHubRepo, readme: Option<&str>) -> (r: WebFetchResponse)
        ensures
            r.url@ == url@,
            r.status_code == 200,
            opt_view(r.content_type) == Some("text/markdown"@),
            opt_view(r.format) == Some("github_repo"@),
            opt_view(r.content) == Some(
                repo_markdown(
                    repo,
                    match readme {
                        Some(t) => Some(t@),
                        None => None,
                    },
                ),
            ),
            r.error is None && r.size is None && r.truncated is None && r.method is None,
            r.last_modified is None && r.filename is None,
    {
        let mut resp = WebFetchResponse::default();
        resp.url = String::from_str(url);
        resp.status_code = 200;
        resp.content_type = Some(String::from_str("text/markdown"));
        resp.format = Some(String::from_str("github_repo"));
        resp.content = Some(format_github_repo_response(repo, readme));
        resp
    }
}

} // verus!
