//! Fetchers and their dispatch: request validation, the generic HTTP
//! fetcher's decisions, and the GitHub repository fetcher's URL matching.
use vstd::prelude::*;
use vstd::utf8::{valid_utf8, decode_utf8};
use crate::types::{HttpMethod, WebFetchRequest, WebFetchResponse, FetchOptions};
use crate::error::FetchError;
use crate::url::{ParsedUrl, url_parts, opt_view, download_filename, extract_filename};
use crate::classify::{is_binary_content_type, is_binary_spec};
use crate::convert::{is_html, html_by_type, html_by_body, markdown_of, text_of, html_to_markdown,
    html_to_text, starts_with};
use crate::whitespace::{cap_spec, filter_excessive_newlines, no_triple_newline, lemma_cap_keeps_capped};
use crate::text::{chars_of, span_is};
use crate::entity::{digits_value, digit_value, radix, lemma_digits_none_extends};
use crate::github::{GitHubRepoFetcher, github_repo_of};
use crate::{DEFAULT_USER_AGENT, TIMEOUT_MESSAGE, BINARY_MESSAGE};

verus! {

/// Whether `s` starts with `p`.
pub fn has_prefix(s: &str, p: &str) -> (r: bool)
    ensures
        r == starts_with(s@, p@),
{
    let sc = chars_of(s);
    let pc = chars_of(p);
    if pc.len() > sc.len() {
        false
    } else {
        span_is(&sc, 0, pc.len(), pc.as_slice())
    }
}

pub open spec fn has_http_scheme(url: Seq<char>) -> bool {
    starts_with(url, "http://"@) || starts_with(url, "https://"@)
}

pub open spec fn any_prefix(url: Seq<char>, ps: Seq<String>) -> bool {
    exists|i: int| 0 <= i < ps.len() && starts_with(url, #[trigger] ps[i]@)
}

/// The allow list (when not empty) and the block list both admit `url`.
pub open spec fn prefixes_admit(url: Seq<char>, options: FetchOptions) -> bool {
    &&& (options.allow_prefixes@.len() == 0 || any_prefix(url, options.allow_prefixes@))
    &&& !any_prefix(url, options.block_prefixes@)
}

fn matches_any(url: &str, ps: &Vec<String>) -> (r: bool)
    ensures
        r == any_prefix(url@, ps@),
{
    let mut i: usize = 0;
    while i < ps.len()
        invariant
            i <= ps.len(),
            forall|j: int| 0 <= j < i ==> !starts_with(url@, #[trigger] ps@[j]@),
        decreases ps.len() - i,
    {
        if has_prefix(url, ps[i].as_str()) {
            return true;
        }
        i = i + 1;
    }
    false
}

/// The checks made on a request before any network call.
pub fn validate_request(url: &str, options: &FetchOptions) -> (r: Result<(), FetchError>)
    ensures
        url@.len() == 0 ==> r is Err && r->Err_0 is MissingUrl,
        url@.len() > 0 && !has_http_scheme(url@) ==> r is Err && r->Err_0 is InvalidUrlScheme,
        url@.len() > 0 && has_http_scheme(url@) && !prefixes_admit(url@, *options) ==> r is Err
            && r->Err_0 is BlockedUrl,
        url@.len() > 0 && has_http_scheme(url@) && prefixes_admit(url@, *options) ==> r is Ok,
{
    if url.is_empty() {
        return Err(FetchError::MissingUrl);
    }
    if !has_prefix(url, "http://") && !has_prefix(url, "https://") {
        return Err(FetchError::InvalidUrlScheme);
    }
    check_prefixes(url, options)
}

fn check_prefixes(url: &str, options: &FetchOptions) -> (r: Result<(), FetchError>)
    ensures
        !prefixes_admit(url@, *options) ==> r is Err && r->Err_0 is BlockedUrl,
        prefixes_admit(url@, *options) ==> r is Ok,
{
    if options.allow_prefixes.len() > 0 && !matches_any(url, &options.allow_prefixes) {
        return Err(FetchError::BlockedUrl);
    }
    if matches_any(url, &options.block_prefixes) {
        return Err(FetchError::BlockedUrl);
    }
    Ok(())
}

/// The `Accept` header for the conversion asked for.
pub open spec fn accept_for(markdown: bool, text: bool) -> Seq<char> {
    if markdown {
        "text/html, text/markdown, text/plain, */*;q=0.8"@
    } else if text {
        "text/html, text/plain, */*;q=0.8"@
    } else {
        "*/*"@
    }
}

/// How the generic fetcher will make a request.
#[derive(Debug)]
pub struct RequestPlan {
    pub method: HttpMethod,
    /// Convert HTML bodies to Markdown.
    pub markdown: bool,
    /// Convert HTML bodies to plain text (when not to Markdown).
    pub text: bool,
    pub user_agent: String,
    pub accept: String,
}

/// What the response's status line and headers said.
#[derive(Debug)]
pub struct ResponseHead {
    pub status_code: u16,
    pub content_type: Option<String>,
    pub last_modified: Option<String>,
    pub content_length: Option<u64>,
    pub content_disposition: Option<String>,
}

/// After the headers: either the response is complete, or the body is to be read.
#[derive(Debug)]
pub enum HeadOutcome {
    Done(WebFetchResponse),
    ReadBody,
}

/// A `Content-Length` value read as `u64::from_str` reads it: an optional
/// `+`, then at least one decimal digit, and a value that fits.
pub open spec fn content_length_of(s: Seq<char>) -> Option<u64> {
    let body = if s.len() > 1 && s[0] == '+' {
        s.drop_first()
    } else {
        s
    };
    if body.len() == 0 {
        None
    } else {
        match digits_value(body, false) {
            Some(v) => if v <= u64::MAX {
                Some(v as u64)
            } else {
                None
            },
            None => None,
        }
    }
}

/// Reads a `Content-Length` header value.
pub fn parse_content_length(value: &str) -> (r: Option<u64>)
    ensures
        r == content_length_of(value@),
{
    let cs = chars_of(value);
    let ghost s = cs@;
    let mut a: usize = 0;
    if cs.len() > 1 && cs[0] == '+' {
        a = 1;
    }
    let ghost body = cs@.subrange(a as int, cs.len() as int);
    assert(body == (if s.len() > 1 && s[0] == '+' { s.drop_first() } else { s }));
    if a == cs.len() {
        return None;
    }
    let mut v: u128 = 0;
    let mut k = a;
    while k < cs.len()
        invariant
            a <= k <= cs.len(),
            a < cs.len(),
            s == cs@,
            s == value@,
            body == cs@.subrange(a as int, cs.len() as int),
            body == (if s.len() > 1 && s[0] == '+' { s.drop_first() } else { s }),
            digits_value(cs@.subrange(a as int, k as int), false) is Some,
            ({
                let acc = digits_value(cs@.subrange(a as int, k as int), false)->0;
                (v as nat == acc && acc <= u64::MAX) || (v == u64::MAX as u128 + 1 && acc > u64::MAX)
            }),
        decreases cs.len() - k,
    {
        let ghost pre = cs@.subrange(a as int, k as int);
        let ghost nxt = cs@.subrange(a as int, k + 1);
        assert(nxt.drop_last() == pre);
        let c = cs[k];
        if '0' <= c && c <= '9' {
            let d = (c as u32 - '0' as u32) as u128;
            let ghost acc = digits_value(pre, false)->0;
            if v > u64::MAX as u128 {
                assert(acc * radix(false) + d >= acc) by (nonlinear_arith)
                    requires
                        radix(false) >= 1,
                ;
            } else {
                let nv = v * 10 + d;
                v = if nv > u64::MAX as u128 { u64::MAX as u128 + 1 } else { nv };
            }
        } else {
            proof {
                assert(digit_value(c, false) is None);
                assert(nxt == body.subrange(0, nxt.len() as int));
                lemma_digits_none_extends(body, nxt, false);
            }
            return None;
        }
        k = k + 1;
    }
    if v > u64::MAX as u128 {
        None
    } else {
        Some(v as u64)
    }
}

/// What decoding body bytes leniently gives.
pub uninterp spec fn lossy_text(b: Seq<u8>) -> Seq<char>;

/// Relies on `String::from_utf8_lossy`: the text depends on the bytes alone,
/// and valid UTF-8 decodes as itself.
#[verifier::external_body]
fn decode_lossy(b: &Vec<u8>) -> (r: String)
    ensures
        r@ == lossy_text(b@),
        valid_utf8(b@) ==> r@ == decode_utf8(b@),
{
    String::from_utf8_lossy(b.as_slice()).into_owned()
}

/// Whether the decoded body counts as HTML.
pub open spec fn body_is_html(content_type: Option<String>, text: Seq<char>) -> bool {
    html_by_type(content_type) || html_by_body(text)
}

/// The format of a read body: `markdown` or `text` when an HTML body was
/// converted, `raw` otherwise.
pub open spec fn format_for(html: bool, markdown: bool, text: bool) -> Seq<char> {
    if html && markdown {
        "markdown"@
    } else if html && text {
        "text"@
    } else {
        "raw"@
    }
}

/// The content of a read body: decoded, converted when HTML and asked for,
/// with newline runs capped, and the timeout marker appended when truncated.
pub open spec fn body_content(
    body: Seq<u8>,
    content_type: Option<String>,
    markdown: bool,
    text: bool,
    truncated: bool,
) -> Seq<char> {
    let t = lossy_text(body);
    let html = body_is_html(content_type, t);
    let converted = if html && markdown {
        markdown_of(t)
    } else if html && text {
        text_of(t)
    } else {
        t
    };
    if truncated {
        cap_spec(converted) + TIMEOUT_MESSAGE@
    } else {
        cap_spec(converted)
    }
}

pub open spec fn ends_with(s: Seq<char>, suffix: Seq<char>) -> bool {
    suffix.len() <= s.len() && s.subrange(s.len() - suffix.len(), s.len() as int) == suffix
}

/// A body cut short by its deadline always yields content that ends with
/// the timeout marker, whatever was read and however it was converted.
pub proof fn lemma_truncated_content_ends_with_marker(
    body: Seq<u8>,
    content_type: Option<String>,
    markdown: bool,
    text: bool,
)
    ensures
        ends_with(body_content(body, content_type, markdown, text, true), TIMEOUT_MESSAGE@),
{
    let c = body_content(body, content_type, markdown, text, true);
    let m = TIMEOUT_MESSAGE@;
    assert(c.subrange(c.len() - m.len(), c.len() as int) =~= m);
}

/// A body that is valid UTF-8, is not converted (not HTML, or no conversion
/// asked for), holds no run of three newlines and was read to its end comes
/// back as its text, whatever the status of the response.
pub proof fn lemma_plain_body_kept(body: Seq<u8>, content_type: Option<String>, markdown: bool, text: bool)
    requires
        valid_utf8(body),
        lossy_text(body) == decode_utf8(body),
        !body_is_html(content_type, decode_utf8(body)) || (!markdown && !text),
        no_triple_newline(decode_utf8(body)),
    ensures
        body_content(body, content_type, markdown, text, false) == decode_utf8(body),
{
    lemma_cap_keeps_capped(decode_utf8(body));
}

/// In the default registry, a URL whose path does not have exactly two
/// segments (or has no hierarchical path) goes to the generic fetcher.
pub proof fn lemma_default_registry_routes_to_default(u: (Option<Seq<char>>, Option<Seq<Seq<char>>>))
    requires
        u.1 is None || u.1->0.len() != 2,
    ensures
        first_match(seq![Fetcher::GitHubRepo(GitHubRepoFetcher), Fetcher::Default(DefaultFetcher)], u, 0)
            == Some(1int),
{
    let fs = seq![Fetcher::GitHubRepo(GitHubRepoFetcher), Fetcher::Default(DefaultFetcher)];
    assert(!fetcher_matches(fs[0], u));
    assert(fetcher_matches(fs[1], u));
    assert(first_match(fs, u, 1) == Some(1int));
    assert(first_match(fs, u, 0) == first_match(fs, u, 1));
}

fn clone_opt(o: &Option<String>) -> (r: Option<String>)
    ensures
        opt_view(r) == opt_view(*o),
{
    match o {
        Some(s) => Some(s.clone()),
        None => None,
    }
}

/// The generic HTTP(S) fetcher; it matches every URL.
#[derive(Clone, Copy, Debug)]
pub struct DefaultFetcher;

impl DefaultFetcher {
    pub fn new() -> (r: DefaultFetcher) {
        DefaultFetcher
    }

    pub fn name(&self) -> (r: &'static str)
        ensures
            r@ == "default"@,
    {
        "default"
    }

    /// Matches every URL.
    pub fn matches(&self, url: &ParsedUrl) -> (r: bool)
        ensures
            r,
    {
        true
    }

    /// Method, conversion, `User-Agent` and `Accept` for a request. A
    /// conversion is used only when both the request asks for it and the
    /// options enable it.
    pub fn plan(&self, request: &WebFetchRequest, options: &FetchOptions) -> (r: RequestPlan)
        ensures
            r.method == (match request.method {
                Some(m) => m,
                None => HttpMethod::Get,
            }),
            r.markdown == (options.enable_markdown && request.as_markdown == Some(true)),
            r.text == (options.enable_text && request.as_text == Some(true)),
            r.user_agent@ == (match options.user_agent {
                Some(u) => u@,
                None => DEFAULT_USER_AGENT@,
            }),
            r.accept@ == accept_for(r.markdown, r.text),
    {
        let markdown = options.enable_markdown && request.wants_markdown();
        let text = options.enable_text && request.wants_text();
        let user_agent = match &options.user_agent {
            Some(u) => u.clone(),
            None => String::from_str(DEFAULT_USER_AGENT),
        };
        let accept = if markdown {
            String::from_str("text/html, text/markdown, text/plain, */*;q=0.8")
        } else if text {
            String::from_str("text/html, text/plain, */*;q=0.8")
        } else {
            String::from_str("*/*")
        };
        RequestPlan { method: request.effective_method(), markdown, text, user_agent, accept }
    }

    /// Decides what the headers of a response settle: a HEAD request is
    /// answered with metadata; a binary content type with metadata and an
    /// explanation instead of content; anything else goes on to the body.
    pub fn on_headers(&self, url: &str, plan: &RequestPlan, head: &ResponseHead) -> (r: HeadOutcome)
        ensures
            (plan.method == HttpMethod::Head || (head.content_type is Some && is_binary_spec(
                head.content_type->0@,
            ))) <==> r is Done,
            r is Done ==> ({
                let resp = r->Done_0;
                &&& resp.url@ == url@
                &&& resp.status_code == head.status_code
                &&& opt_view(resp.content_type) == opt_view(head.content_type)
                &&& resp.size == head.content_length
                &&& opt_view(resp.last_modified) == opt_view(head.last_modified)
                &&& opt_view(resp.filename) == download_filename(opt_view(head.content_disposition), url@)
                &&& resp.format is None
                &&& resp.content is None
                &&& resp.truncated is None
                &&& opt_view(resp.method) == if plan.method == HttpMethod::Head {
                    Some("HEAD"@)
                } else {
                    None
                }
                &&& opt_view(resp.error) == if plan.method == HttpMethod::Head {
                    None
                } else {
                    Some(BINARY_MESSAGE@)
                }
            }),
    {
        let binary = match &head.content_type {
            Some(ct) => is_binary_content_type(ct.as_str()),
            None => false,
        };
        if plan.method != HttpMethod::Head && !binary {
            return HeadOutcome::ReadBody;
        }
        let is_head = plan.method == HttpMethod::Head;
        HeadOutcome::Done(WebFetchResponse {
            url: String::from_str(url),
            status_code: head.status_code,
            content_type: clone_opt(&head.content_type),
            size: head.content_length,
            last_modified: clone_opt(&head.last_modified),
            filename: extract_filename(&head.content_disposition, url),
            format: None,
            content: None,
            truncated: None,
            method: if is_head { Some(String::from_str("HEAD")) } else { None },
            error: if is_head { None } else { Some(String::from_str(BINARY_MESSAGE)) },
        })
    }

    /// Builds the response from the body that was read: its size is the
    /// number of bytes read; HTTP error statuses pass through unchanged.
    pub fn finish(
        &self,
        url: &str,
        plan: &RequestPlan,
        head: &ResponseHead,
        body: Vec<u8>,
        truncated: bool,
    ) -> (r: WebFetchResponse)
        ensures
            r.url@ == url@,
            r.status_code == head.status_code,
            opt_view(r.content_type) == opt_view(head.content_type),
            r.size == Some(body@.len() as u64),
            opt_view(r.last_modified) == opt_view(head.last_modified),
            opt_view(r.filename) == download_filename(opt_view(head.content_disposition), url@),
            opt_view(r.format) == Some(
                format_for(
                    body_is_html(head.content_type, lossy_text(body@)),
                    plan.markdown,
                    plan.text,
                ),
            ),
            opt_view(r.content) == Some(
                body_content(body@, head.content_type, plan.markdown, plan.text, truncated),
            ),
            r.truncated == if truncated {
                Some(true)
            } else {
                None
            },
            valid_utf8(body@) ==> lossy_text(body@) == decode_utf8(body@),
            r.method is None,
            r.error is None,
    {
        let size = body.len() as u64;
        let text = decode_lossy(&body);
        let html = is_html(&head.content_type, text.as_str());
        let (format, converted) = if html && plan.markdown {
            (String::from_str("markdown"), html_to_markdown(text.as_str()))
        } else if html && plan.text {
            (String::from_str("text"), html_to_text(text.as_str()))
        } else {
            (String::from_str("raw"), text)
        };
        let mut content = filter_excessive_newlines(converted.as_str());
        if truncated {
            content.append(TIMEOUT_MESSAGE);
        }
        WebFetchResponse {
            url: String::from_str(url),
            status_code: head.status_code,
            content_type: clone_opt(&head.content_type),
            size: Some(size),
            last_modified: clone_opt(&head.last_modified),
            filename: extract_filename(&head.content_disposition, url),
            format: Some(format),
            content: Some(content),
            truncated: if truncated { Some(true) } else { None },
            method: None,
            error: None,
        }
    }
}

/// A content source: the generic HTTP fetcher or a specialised one.
#[derive(Clone, Copy, Debug)]
pub enum Fetcher {
    GitHubRepo(GitHubRepoFetcher),
    Default(DefaultFetcher),
}

pub open spec fn fetcher_matches(f: Fetcher, u: (Option<Seq<char>>, Option<Seq<Seq<char>>>)) -> bool {
    match f {
        Fetcher::GitHubRepo(_) => github_repo_of(u) is Some,
        Fetcher::Default(_) => true,
    }
}

impl Fetcher {
    /// The fetcher's identifier.
    pub fn name(&self) -> (r: &'static str)
        ensures
            r@ == (match self {
                Fetcher::GitHubRepo(_) => "github_repo"@,
                Fetcher::Default(_) => "default"@,
            }),
    {
        match self {
            Fetcher::GitHubRepo(g) => g.name(),
            Fetcher::Default(d) => d.name(),
        }
    }

    /// Whether the fetcher handles `url`.
    pub fn matches(&self, url: &ParsedUrl) -> (r: bool)
        ensures
            r == fetcher_matches(*self, url@),
    {
        match self {
            Fetcher::GitHubRepo(g) => g.matches(url),
            Fetcher::Default(d) => d.matches(url),
        }
    }
}

/// Position of the first fetcher, from `i` on, that matches `u`.
pub open spec fn first_match(fs: Seq<Fetcher>, u: (Option<Seq<char>>, Option<Seq<Seq<char>>>), i: int) -> Option<int>
    decreases fs.len() - i,
{
    if i < 0 || i >= fs.len() {
        None
    } else if fetcher_matches(fs[i], u) {
        Some(i)
    } else {
        first_match(fs, u, i + 1)
    }
}

/// Fetchers in priority order: the first that matches a URL handles it.
pub struct FetcherRegistry {
    fetchers: Vec<Fetcher>,
}

impl View for FetcherRegistry {
    type V = Seq<Fetcher>;

    closed spec fn view(&self) -> Seq<Fetcher> {
        self.fetchers@
    }
}

impl FetcherRegistry {
    /// A registry with no fetcher.
    pub fn new() -> (r: FetcherRegistry)
        ensures
            r@.len() == 0,
    {
        FetcherRegistry { fetchers: Vec::new() }
    }

    /// The GitHub repository fetcher, then the generic fetcher.
    pub fn with_defaults() -> (r: FetcherRegistry)
        ensures
            r@ == seq![
                Fetcher::GitHubRepo(GitHubRepoFetcher),
                Fetcher::Default(DefaultFetcher),
            ],
    {
        let mut r = FetcherRegistry::new();
        r.register(Fetcher::GitHubRepo(GitHubRepoFetcher::new()));
        r.register(Fetcher::Default(DefaultFetcher::new()));
        assert(r@ =~= seq![Fetcher::GitHubRepo(GitHubRepoFetcher), Fetcher::Default(DefaultFetcher)]);
        r
    }

    /// Adds a fetcher after those already registered.
    pub fn register(&mut self, fetcher: Fetcher)
        ensures
            final(self)@ == old(self)@.push(fetcher),
    {
        self.fetchers.push(fetcher);
    }

    /// The registered fetchers, in order.
    pub fn fetchers(&self) -> (r: &Vec<Fetcher>)
        ensures
            r@ == self@,
    {
        &self.fetchers
    }

    /// Picks the fetcher for a request: the URL must be non-empty, start
    /// with `http://` or `https://` and parse; the allow and block lists
    /// must admit it; then the first registered fetcher that matches it.
    pub fn dispatch(&self, request: &WebFetchRequest, options: &FetchOptions) -> (r: Result<Fetcher, FetchError>)
        ensures
            request.url@.len() == 0 ==> r is Err && r->Err_0 is MissingUrl,
            request.url@.len() > 0 && !has_http_scheme(request.url@) ==> r is Err && r->Err_0 is InvalidUrlScheme,
            request.url@.len() > 0 && has_http_scheme(request.url@) ==> match url_parts(request.url@) {
                None => r is Err && r->Err_0 is InvalidUrlScheme,
                Some(u) => if !prefixes_admit(request.url@, *options) {
                    r is Err && r->Err_0 is BlockedUrl
                } else {
                    match first_match(self@, u, 0) {
                        Some(i) => r is Ok && r->Ok_0 == self@[i],
                        None => r is Err && r->Err_0 is FetcherError
                            && r->Err_0->FetcherError_0@ == "No fetcher available for URL"@,
                    }
                },
            },
    {
        let url = request.url.as_str();
        if url.is_empty() {
            return Err(FetchError::MissingUrl);
        }
        if !has_prefix(url, "http://") && !has_prefix(url, "https://") {
            return Err(FetchError::InvalidUrlScheme);
        }
        let parsed = match ParsedUrl::parse(url) {
            Some(p) => p,
            None => {
                return Err(FetchError::InvalidUrlScheme);
            },
        };
        match check_prefixes(url, options) {
            Ok(()) => {},
            Err(e) => {
                return Err(e);
            },
        }
        let ghost u = request.url@;
        assert(u.len() > 0 && has_http_scheme(u));
        let mut i: usize = 0;
        while i < self.fetchers.len()
            invariant
                i <= self.fetchers.len(),
                request.url@.len() > 0,
                has_http_scheme(request.url@),
                url_parts(request.url@) == Some(parsed@),
                prefixes_admit(request.url@, *options),
                first_match(self@, parsed@, i as int) == first_match(self@, parsed@, 0),
            decreases self.fetchers.len() - i,
        {
            if self.fetchers[i].matches(&parsed) {
                return Ok(self.fetchers[i]);
            }
            i = i + 1;
        }
        Err(FetchError::FetcherError(String::from_str("No fetcher available for URL")))
    }
}

} // verus!
