use fetchkit::body::{BodyEvent, BoundedBodyReader};
use fetchkit::classify::{is_binary_content_type, parse_content_disposition_filename};
use fetchkit::error::FetchError;
use fetchkit::fetchers::{
    validate_request, DefaultFetcher, Fetcher, FetcherRegistry, HeadOutcome, RequestPlan,
    ResponseHead,
};
use fetchkit::github::GitHubRepoFetcher;
use fetchkit::types::{FetchOptions, FetchRequest, HttpMethod};
use fetchkit::url::{extract_filename, ParsedUrl};
use fetchkit::{BINARY_MESSAGE, DEFAULT_USER_AGENT, TIMEOUT_MESSAGE};

fn check_binary() {
    assert!(is_binary_content_type("image/png"));
    assert!(is_binary_content_type("image/jpeg"));
    assert!(is_binary_content_type("audio/mp3"));
    assert!(is_binary_content_type("video/mp4"));
    assert!(is_binary_content_type("application/pdf"));
    assert!(is_binary_content_type("application/octet-stream"));
    assert!(is_binary_content_type("application/zip"));
    assert!(is_binary_content_type("application/vnd.ms-excel"));
    assert!(is_binary_content_type(
        "application/vnd.openxmlformats-officedocument.spreadsheetml.sheet"
    ));
    assert!(is_binary_content_type("font/woff2"));

    assert!(!is_binary_content_type("text/html"));
    assert!(!is_binary_content_type("text/plain"));
    assert!(!is_binary_content_type("application/json"));
    assert!(!is_binary_content_type("application/javascript"));
}

#[test]
fn default_test_is_binary_content_type() {
    check_binary();
}

#[test]
fn client_test_is_binary_content_type() {
    check_binary();
}

#[test]
fn binary_detection_ignores_case_and_covers_every_prefix() {
    assert!(is_binary_content_type("IMAGE/PNG"));
    for p in [
        "image/", "audio/", "video/", "application/octet-stream", "application/pdf",
        "application/zip", "application/gzip", "application/x-tar", "application/x-rar",
        "application/x-7z", "application/vnd.ms-", "application/vnd.openxmlformats", "font/",
    ] {
        assert!(is_binary_content_type(&format!("{}x", p)));
    }
    assert!(!is_binary_content_type(" image/png"));
}

fn check_disposition() {
    assert_eq!(
        parse_content_disposition_filename("attachment; filename=\"file.pdf\""),
        Some("file.pdf".to_string())
    );
    assert_eq!(
        parse_content_disposition_filename("attachment; filename=file.pdf"),
        Some("file.pdf".to_string())
    );
    assert_eq!(
        parse_content_disposition_filename("inline; filename=\"report.xlsx\"; size=1234"),
        Some("report.xlsx".to_string())
    );
    assert_eq!(parse_content_disposition_filename("inline"), None);
}

#[test]
fn default_test_parse_content_disposition_filename() {
    check_disposition();
}

#[test]
fn client_test_parse_content_disposition_filename() {
    check_disposition();
}

#[test]
fn disposition_filename_forms() {
    assert_eq!(
        parse_content_disposition_filename("attachment; FILENAME=\"a.txt\""),
        Some("a.txt".to_string())
    );
    assert_eq!(
        parse_content_disposition_filename("attachment; filename=\"open"),
        Some("open".to_string())
    );
    assert_eq!(parse_content_disposition_filename("attachment; filename=;"), None);
    assert_eq!(
        parse_content_disposition_filename("attachment; filename=b.bin next"),
        Some("b.bin".to_string())
    );
}

fn check_filename_from_url() {
    assert_eq!(
        extract_filename(&None, "https://example.com/path/to/file.pdf"),
        Some("file.pdf".to_string())
    );
    assert_eq!(extract_filename(&None, "https://example.com/path/to/document"), None);
    assert_eq!(extract_filename(&None, "https://example.com/"), None);
}

#[test]
fn default_test_extract_filename_from_url() {
    check_filename_from_url();
}

#[test]
fn client_test_extract_filename_from_url() {
    check_filename_from_url();
}

#[test]
fn filename_prefers_disposition() {
    assert_eq!(
        extract_filename(&Some("attachment; filename=\"report.txt\"".to_string()), "https://e.com/x.pdf"),
        Some("report.txt".to_string())
    );
    assert_eq!(
        extract_filename(&Some("inline".to_string()), "https://e.com/d/x.pdf"),
        Some("x.pdf".to_string())
    );
}

#[test]
fn test_default_fetcher_matches_all() {
    let fetcher = DefaultFetcher::new();
    let url = ParsedUrl::parse("https://example.com").unwrap();
    assert!(fetcher.matches(&url));

    let url = ParsedUrl::parse("https://github.com/owner/repo").unwrap();
    assert!(fetcher.matches(&url));
}

#[test]
fn test_fetch_options_default() {
    let options = FetchOptions::default();
    assert!(options.user_agent.is_none());
    assert!(options.allow_prefixes.is_empty());
    assert!(options.block_prefixes.is_empty());
    assert!(!options.enable_markdown);
    assert!(!options.enable_text);
}

#[test]
fn test_fetch_empty_url() {
    let registry = FetcherRegistry::with_defaults();
    let req = FetchRequest::new("");
    let result = registry.dispatch(&req, &FetchOptions::default());
    assert!(matches!(result, Err(FetchError::MissingUrl)));
}

#[test]
fn test_fetch_invalid_scheme() {
    let registry = FetcherRegistry::with_defaults();
    let req = FetchRequest::new("ftp://example.com");
    let result = registry.dispatch(&req, &FetchOptions::default());
    assert!(matches!(result, Err(FetchError::InvalidUrlScheme)));
}

#[test]
fn test_registry_with_defaults() {
    let registry = FetcherRegistry::with_defaults();
    assert_eq!(registry.fetchers().len(), 2);
    assert_eq!(registry.fetchers()[0].name(), "github_repo");
    assert_eq!(registry.fetchers()[1].name(), "default");
}

#[test]
fn test_empty_registry() {
    let registry = FetcherRegistry::new();
    assert!(registry.fetchers().is_empty());
}

#[test]
fn dispatch_prefers_registration_order() {
    let registry = FetcherRegistry::with_defaults();
    let opts = FetchOptions::default();
    let pick = |u: &str| registry.dispatch(&FetchRequest::new(u), &opts).unwrap().name();
    assert_eq!(pick("https://github.com/owner/repo"), "github_repo");
    assert_eq!(pick("https://github.com/owner/repo/issues"), "default");
    assert_eq!(pick("https://github.com/owner"), "default");
    assert_eq!(pick("https://example.com/a/b"), "default");
    let empty = FetcherRegistry::new();
    let r = empty.dispatch(&FetchRequest::new("https://example.com"), &opts);
    assert!(matches!(r, Err(FetchError::FetcherError(ref m)) if m == "No fetcher available for URL"));
}

#[test]
fn dispatch_unparsable_url() {
    let registry = FetcherRegistry::with_defaults();
    let r = registry.dispatch(&FetchRequest::new("http://"), &FetchOptions::default());
    assert!(matches!(r, Err(FetchError::InvalidUrlScheme)));
}

#[test]
fn url_prefix_lists() {
    let mut opts = FetchOptions::default();
    opts.allow_prefixes.push("https://allowed.example.com".to_string());
    assert!(matches!(validate_request("http://127.0.0.1/", &opts), Err(FetchError::BlockedUrl)));
    assert!(validate_request("https://allowed.example.com/x", &opts).is_ok());
    opts.block_prefixes.push("https://allowed.example.com/x".to_string());
    assert!(matches!(
        validate_request("https://allowed.example.com/x/y", &opts),
        Err(FetchError::BlockedUrl)
    ));
    let mut block = FetchOptions::default();
    block.block_prefixes.push("http://127.0.0.1".to_string());
    assert!(matches!(validate_request("http://127.0.0.1/", &block), Err(FetchError::BlockedUrl)));
    assert!(matches!(validate_request("", &block), Err(FetchError::MissingUrl)));
    assert!(matches!(
        validate_request("ftp://example.com/file.txt", &block),
        Err(FetchError::InvalidUrlScheme)
    ));
}

fn head(status: u16, ct: Option<&str>) -> ResponseHead {
    ResponseHead {
        status_code: status,
        content_type: ct.map(|s| s.to_string()),
        last_modified: None,
        content_length: None,
        content_disposition: None,
    }
}

fn plan_for(req: &FetchRequest) -> RequestPlan {
    let mut opts = FetchOptions::default();
    opts.enable_markdown = true;
    opts.enable_text = true;
    DefaultFetcher::new().plan(req, &opts)
}

#[test]
fn plan_headers_follow_mode() {
    let p = plan_for(&FetchRequest::new("https://e.com").as_markdown());
    assert_eq!(p.accept, "text/html, text/markdown, text/plain, */*;q=0.8");
    assert_eq!(p.user_agent, DEFAULT_USER_AGENT);
    let p = plan_for(&FetchRequest::new("https://e.com").as_text());
    assert_eq!(p.accept, "text/html, text/plain, */*;q=0.8");
    let p = plan_for(&FetchRequest::new("https://e.com"));
    assert_eq!(p.accept, "*/*");
    let p = DefaultFetcher::new().plan(&FetchRequest::new("https://e.com").as_markdown(), &FetchOptions::default());
    assert!(!p.markdown);
}

#[test]
fn head_request_returns_metadata() {
    let req = FetchRequest::new("https://e.com/file.pdf").method(HttpMethod::Head);
    let p = plan_for(&req);
    let mut h = head(200, Some("application/pdf"));
    h.content_length = Some(12345);
    h.last_modified = Some("Tue, 01 Jan 2024 00:00:00 GMT".to_string());
    match DefaultFetcher::new().on_headers(&req.url, &p, &h) {
        HeadOutcome::Done(r) => {
            assert_eq!(r.method, Some("HEAD".to_string()));
            assert_eq!(r.size, Some(12345));
            assert_eq!(r.filename, Some("file.pdf".to_string()));
            assert!(r.content.is_none());
            assert!(r.error.is_none());
        }
        HeadOutcome::ReadBody => panic!("HEAD must not read a body"),
    }
}

#[test]
fn binary_content_short_circuits() {
    let req = FetchRequest::new("https://e.com/image.png");
    let p = plan_for(&req);
    match DefaultFetcher::new().on_headers(&req.url, &p, &head(200, Some("image/png"))) {
        HeadOutcome::Done(r) => {
            assert_eq!(r.error, Some(BINARY_MESSAGE.to_string()));
            assert!(r.content.is_none());
            assert!(r.method.is_none());
        }
        HeadOutcome::ReadBody => panic!("binary body must not be read"),
    }
    let h = head(200, Some("text/plain"));
    assert!(matches!(DefaultFetcher::new().on_headers(&req.url, &p, &h), HeadOutcome::ReadBody));
}

#[test]
fn status_passes_through_with_content() {
    let req = FetchRequest::new("https://e.com/not-found");
    let p = plan_for(&req);
    let r = DefaultFetcher::new().finish(&req.url, &p, &head(404, Some("text/plain")), b"Not Found".to_vec(), false);
    assert_eq!(r.status_code, 404);
    assert!(r.content.unwrap().contains("Not Found"));
    assert!(r.error.is_none());
    assert_eq!(r.format, Some("raw".to_string()));
    assert_eq!(r.size, Some(9));
    assert!(r.truncated.is_none());
}

#[test]
fn html_detected_by_body_is_converted() {
    let req = FetchRequest::new("https://e.com/").as_markdown();
    let p = plan_for(&req);
    let body = b"<!DOCTYPE html><html><body><h1>Hello</h1></body></html>".to_vec();
    let r = DefaultFetcher::new().finish(&req.url, &p, &head(200, Some("text/plain")), body, false);
    assert_eq!(r.format, Some("markdown".to_string()));
    assert_eq!(r.content, Some("# Hello".to_string()));
}

#[test]
fn non_html_stays_raw() {
    let req = FetchRequest::new("https://e.com/api").as_markdown();
    let p = plan_for(&req);
    let body = b"{\"key\": \"value\"}".to_vec();
    let r = DefaultFetcher::new().finish(&req.url, &p, &head(200, Some("application/json")), body, false);
    assert_eq!(r.format, Some("raw".to_string()));
    assert!(r.content.unwrap().contains("\"key\""));
}

#[test]
fn text_mode_and_newline_filter() {
    let req = FetchRequest::new("https://e.com/").as_text();
    let p = plan_for(&req);
    let body = b"<h1>Title</h1><p>Paragraph text</p><script>alert(1)</script>".to_vec();
    let r = DefaultFetcher::new().finish(&req.url, &p, &head(200, Some("text/html")), body, false);
    assert_eq!(r.format, Some("text".to_string()));
    let c = r.content.unwrap();
    assert!(c.contains("Title") && c.contains("Paragraph text") && !c.contains("alert"));
    let raw = FetchRequest::new("https://e.com/");
    let r = DefaultFetcher::new().finish(&raw.url, &plan_for(&raw), &head(200, Some("text/plain")), b"Line1\n\n\n\n\n\nLine2".to_vec(), false);
    assert_eq!(r.content, Some("Line1\n\nLine2".to_string()));
}

#[test]
fn invalid_utf8_is_decoded_leniently() {
    let raw = FetchRequest::new("https://e.com/");
    let r = DefaultFetcher::new().finish(&raw.url, &plan_for(&raw), &head(200, None), vec![b'a', 0xff, b'b'], false);
    assert_eq!(r.content, Some("a\u{fffd}b".to_string()));
    assert_eq!(r.size, Some(3));
}

#[test]
fn truncated_body_is_marked() {
    let req = FetchRequest::new("https://e.com/");
    let p = plan_for(&req);
    let r = DefaultFetcher::new().finish(&req.url, &p, &head(200, Some("text/plain")), b"partial".to_vec(), true);
    assert_eq!(r.truncated, Some(true));
    let c = r.content.unwrap();
    assert!(c.ends_with(TIMEOUT_MESSAGE));
    assert_eq!(c, format!("partial{}", TIMEOUT_MESSAGE));
}

#[test]
fn body_reader_events() {
    let mut rd = BoundedBodyReader::new();
    assert_eq!(rd.step(BodyEvent::Chunk(b"ab".to_vec())), None);
    assert_eq!(rd.step(BodyEvent::Chunk(b"c".to_vec())), None);
    assert_eq!(rd.step(BodyEvent::Deadline), Some(true));
    assert_eq!(rd.into_body(), b"abc".to_vec());

    let mut rd = BoundedBodyReader::new();
    assert_eq!(rd.step(BodyEvent::ReadError), Some(false));
    let mut rd = BoundedBodyReader::new();
    rd.step(BodyEvent::Chunk(b"x".to_vec()));
    assert_eq!(rd.step(BodyEvent::ReadError), Some(true));
    let mut rd = BoundedBodyReader::new();
    assert_eq!(rd.step(BodyEvent::End), Some(false));
}

#[test]
fn github_shaped_urls_route_by_segment_count() {
    let g = GitHubRepoFetcher::new();
    let two = ParsedUrl::parse("https://github.com/owner/repo").unwrap();
    let three = ParsedUrl::parse("https://github.com/owner/repo/issues").unwrap();
    let one = ParsedUrl::parse("https://github.com/owner").unwrap();
    assert!(g.matches(&two));
    assert!(!g.matches(&three));
    assert!(!g.matches(&one));
    assert!(Fetcher::Default(DefaultFetcher::new()).matches(&three));
}
