//! Requests, responses and engine options.
use vstd::prelude::*;
use crate::text::lower;

verus! {

/// HTTP method of a request.
#[derive(Clone, Copy, PartialEq, Eq, Structural, Debug)]
pub enum HttpMethod {
    Get,
    Head,
}

impl Default for HttpMethod {
    fn default() -> (r: HttpMethod)
        ensures
            r == HttpMethod::Get,
    {
        HttpMethod::Get
    }
}

/// `s` spells `word` (given in lower case), ignoring ASCII case.
pub open spec fn spells(s: Seq<char>, word: Seq<char>) -> bool {
    s.len() == word.len() && forall|i: int| 0 <= i < s.len() ==> lower(#[trigger] s[i]) == word[i]
}

pub open spec fn method_named(s: Seq<char>) -> Option<HttpMethod> {
    if spells(s, seq!['g', 'e', 't']) {
        Some(HttpMethod::Get)
    } else if spells(s, seq!['h', 'e', 'a', 'd']) {
        Some(HttpMethod::Head)
    } else {
        None
    }
}

fn spells_exec(s: &Vec<char>, word: &[char]) -> (r: bool)
    ensures
        r == spells(s@, word@),
{
    if s.len() != word.len() {
        return false;
    }
    let mut k: usize = 0;
    while k < s.len()
        invariant
            s.len() == word.len(),
            k <= s.len(),
            forall|i: int| 0 <= i < k ==> lower(#[trigger] s@[i]) == word@[i],
        decreases s.len() - k,
    {
        if crate::text::to_lower(s[k]) != word[k] {
            return false;
        }
        k = k + 1;
    }
    true
}

impl HttpMethod {
    /// Parses `GET` or `HEAD` in any case.
    pub fn parse(s: &str) -> (r: Result<HttpMethod, String>)
        ensures
            r is Ok <==> method_named(s@) is Some,
            r is Ok ==> r->Ok_0 == method_named(s@)->0,
            r is Err ==> r->Err_0@ == "Invalid method: must be GET or HEAD"@,
    {
        let cs = crate::text::chars_of(s);
        if spells_exec(&cs, &['g', 'e', 't']) {
            Ok(HttpMethod::Get)
        } else if spells_exec(&cs, &['h', 'e', 'a', 'd']) {
            Ok(HttpMethod::Head)
        } else {
            Err(String::from_str("Invalid method: must be GET or HEAD"))
        }
    }

    /// The method's name as sent on the wire.
    pub fn as_str(&self) -> (r: &'static str)
        ensures
            r@ == (match self {
                HttpMethod::Get => "GET"@,
                HttpMethod::Head => "HEAD"@,
            }),
    {
        match self {
            HttpMethod::Get => "GET",
            HttpMethod::Head => "HEAD",
        }
    }

    /// The method's name as an owned string.
    pub fn to_string(&self) -> (r: String)
        ensures
            r@ == (match self {
                HttpMethod::Get => "GET"@,
                HttpMethod::Head => "HEAD"@,
            }),
    {
        String::from_str(self.as_str())
    }
}

impl std::str::FromStr for HttpMethod {
    type Err = String;

    fn from_str(s: &str) -> Result<HttpMethod, String> {
        HttpMethod::parse(s)
    }
}

/// A request to fetch a URL.
#[derive(Clone, Debug)]
pub struct WebFetchRequest {
    /// The URL to fetch; must start with `http://` or `https://`.
    pub url: String,
    /// HTTP method; GET when absent.
    pub method: Option<HttpMethod>,
    /// Convert HTML to Markdown.
    pub as_markdown: Option<bool>,
    /// Convert HTML to plain text.
    pub as_text: Option<bool>,
}

/// The request type under its shorter name.
pub type FetchRequest = WebFetchRequest;

impl WebFetchRequest {
    /// A GET request for `url` with no conversion asked for.
    pub fn new(url: &str) -> (r: WebFetchRequest)
        ensures
            r.url@ == url@,
            r.method is None,
            r.as_markdown is None,
            r.as_text is None,
    {
        WebFetchRequest { url: String::from_str(url), method: None, as_markdown: None, as_text: None }
    }

    /// Sets the HTTP method.
    pub fn method(self, method: HttpMethod) -> (r: WebFetchRequest)
        ensures
            r == (WebFetchRequest { method: Some(method), ..self }),
    {
        WebFetchRequest { method: Some(method), ..self }
    }

    /// Asks for Markdown conversion.
    pub fn as_markdown(self) -> (r: WebFetchRequest)
        ensures
            r == (WebFetchRequest { as_markdown: Some(true), ..self }),
    {
        WebFetchRequest { as_markdown: Some(true), ..self }
    }

    /// Asks for plain-text conversion.
    pub fn as_text(self) -> (r: WebFetchRequest)
        ensures
            r == (WebFetchRequest { as_text: Some(true), ..self }),
    {
        WebFetchRequest { as_text: Some(true), ..self }
    }

    /// The method to use: the one set, else GET.
    pub fn effective_method(&self) -> (r: HttpMethod)
        ensures
            r == (match self.method {
                Some(m) => m,
                None => HttpMethod::Get,
            }),
    {
        match self.method {
            Some(m) => m,
            None => HttpMethod::Get,
        }
    }

    /// Whether Markdown conversion was asked for.
    pub fn wants_markdown(&self) -> (r: bool)
        ensures
            r == (self.as_markdown == Some(true)),
    {
        match self.as_markdown {
            Some(b) => b,
            None => false,
        }
    }

    /// Whether plain-text conversion was asked for.
    pub fn wants_text(&self) -> (r: bool)
        ensures
            r == (self.as_text == Some(true)),
    {
        match self.as_text {
            Some(b) => b,
            None => false,
        }
    }
}

/// The outcome of a fetch.
#[derive(Clone, Debug)]
pub struct WebFetchResponse {
    /// The fetched URL.
    pub url: String,
    /// HTTP status code.
    pub status_code: u16,
    /// `Content-Type` header value.
    pub content_type: Option<String>,
    /// Bytes read from the body, or `Content-Length` for HEAD and binary content.
    pub size: Option<u64>,
    /// `Last-Modified` header value.
    pub last_modified: Option<String>,
    /// File name from `Content-Disposition` or from the URL path.
    pub filename: Option<String>,
    /// `markdown`, `text` or `raw` (or a source-specific format).
    pub format: Option<String>,
    /// The fetched and possibly converted content.
    pub content: Option<String>,
    /// `Some(true)` when the body was cut short by its deadline.
    pub truncated: Option<bool>,
    /// `HEAD` for HEAD requests.
    pub method: Option<String>,
    /// Explanation when there is no content (binary body, upstream failure).
    pub error: Option<String>,
}

/// The response type under its shorter name.
pub type FetchResponse = WebFetchResponse;

impl Default for WebFetchResponse {
    fn default() -> (r: WebFetchResponse)
        ensures
            r.url@.len() == 0,
            r.status_code == 0,
            r.content_type is None,
            r.size is None,
            r.last_modified is None,
            r.filename is None,
            r.format is None,
            r.content is None,
            r.truncated is None,
            r.method is None,
            r.error is None,
    {
        WebFetchResponse {
            url: String::new(),
            status_code: 0,
            content_type: None,
            size: None,
            last_modified: None,
            filename: None,
            format: None,
            content: None,
            truncated: None,
            method: None,
            error: None,
        }
    }
}

/// Engine-level options, fixed for the life of an engine.
#[derive(Clone, Debug)]
pub struct FetchOptions {
    /// Custom `User-Agent`.
    pub user_agent: Option<String>,
    /// When not empty, a URL must start with one of these.
    pub allow_prefixes: Vec<String>,
    /// A URL that starts with one of these is refused.
    pub block_prefixes: Vec<String>,
    /// Whether Markdown conversion may be used.
    pub enable_markdown: bool,
    /// Whether plain-text conversion may be used.
    pub enable_text: bool,
}

impl Default for FetchOptions {
    fn default() -> (r: FetchOptions)
        ensures
            r.user_agent is None,
            r.allow_prefixes@.len() == 0,
            r.block_prefixes@.len() == 0,
            !r.enable_markdown,
            !r.enable_text,
    {
        FetchOptions {
            user_agent: None,
            allow_prefixes: Vec::new(),
            block_prefixes: Vec::new(),
            enable_markdown: false,
            enable_text: false,
        }
    }
}

} // verus!
