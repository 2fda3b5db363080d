use std::str::FromStr;

use fetchkit::error::FetchError;
use fetchkit::frontmatter::{format_mcp_frontmatter, format_md_with_frontmatter};
use fetchkit::tool::Tool;
use fetchkit::types::{FetchResponse, HttpMethod, WebFetchRequest};

#[test]
fn test_http_method_from_str() {
    assert_eq!(HttpMethod::from_str("GET").unwrap(), HttpMethod::Get);
    assert_eq!(HttpMethod::from_str("get").unwrap(), HttpMethod::Get);
    assert_eq!(HttpMethod::from_str("Get").unwrap(), HttpMethod::Get);
    assert_eq!(HttpMethod::from_str("HEAD").unwrap(), HttpMethod::Head);
    assert_eq!(HttpMethod::from_str("head").unwrap(), HttpMethod::Head);
    assert!(HttpMethod::from_str("POST").is_err());
    assert!(HttpMethod::from_str("invalid").is_err());
}

#[test]
fn test_http_method_display() {
    assert_eq!(HttpMethod::Get.to_string(), "GET");
    assert_eq!(HttpMethod::Head.to_string(), "HEAD");
}

#[test]
fn test_request_builder() {
    let req = WebFetchRequest::new("https://example.com")
        .method(HttpMethod::Head)
        .as_markdown();

    assert_eq!(req.url, "https://example.com");
    assert_eq!(req.method, Some(HttpMethod::Head));
    assert_eq!(req.as_markdown, Some(true));
}

#[test]
fn test_request_effective_method() {
    let req = WebFetchRequest::new("https://example.com");
    assert_eq!(req.effective_method(), HttpMethod::Get);

    let req = req.method(HttpMethod::Head);
    assert_eq!(req.effective_method(), HttpMethod::Head);
}

#[test]
fn request_conversion_flags() {
    let req = WebFetchRequest::new("https://example.com");
    assert!(!req.wants_markdown() && !req.wants_text());
    let req = req.as_text();
    assert!(req.wants_text() && !req.wants_markdown());
}

#[test]
fn test_error_messages() {
    assert_eq!(FetchError::MissingUrl.message(), "Missing required parameter: url");
    assert_eq!(
        FetchError::InvalidUrlScheme.message(),
        "Invalid URL: must start with http:// or https://"
    );
    assert_eq!(FetchError::InvalidMethod.message(), "Invalid method: must be GET or HEAD");
    assert_eq!(FetchError::BlockedUrl.message(), "Blocked URL: prefix not allowed");
    assert_eq!(
        FetchError::FirstByteTimeout.message(),
        "Request timed out: server did not respond within 1 second"
    );
}

#[test]
fn error_messages_with_detail() {
    assert_eq!(FetchError::RequestError("boom".to_string()).message(), "Request failed: boom");
    assert_eq!(FetchError::FetcherError("bad".to_string()).message(), "Fetcher error: bad");
}

#[test]
fn test_tool_builder() {
    let tool = Tool::builder()
        .enable_markdown(false)
        .enable_text(true)
        .user_agent("TestAgent/1.0")
        .allow_prefix("https://allowed.com")
        .block_prefix("https://blocked.com")
        .build();

    assert!(!tool.enable_markdown);
    assert!(tool.enable_text);
    assert_eq!(tool.user_agent, Some("TestAgent/1.0".to_string()));
    assert_eq!(tool.allow_prefixes, vec!["https://allowed.com"]);
    assert_eq!(tool.block_prefixes, vec!["https://blocked.com"]);
}

#[test]
fn test_tool_description() {
    let tool = Tool::default();
    assert!(!tool.description().is_empty());
    assert!(tool.system_prompt().is_empty());
    assert!(!tool.llmtxt().is_empty());
}

#[test]
fn tool_options_mirror_configuration() {
    let tool = Tool::builder().enable_text(false).block_prefix("http://10.").build();
    let o = tool.options();
    assert!(o.enable_markdown && !o.enable_text);
    assert_eq!(o.block_prefixes, vec!["http://10."]);
    assert!(o.user_agent.is_none());
}

#[test]
fn test_format_md_basic() {
    let response = FetchResponse {
        url: "https://example.com".to_string(),
        status_code: 200,
        content_type: Some("text/html".to_string()),
        content: Some("# Hello World".to_string()),
        ..Default::default()
    };

    let output = format_md_with_frontmatter(&response);

    assert!(output.starts_with("---\n"));
    assert!(output.contains("url: https://example.com\n"));
    assert!(output.contains("status_code: 200\n"));
    assert!(output.contains("source_content_type: text/html\n"));
    assert!(output.contains("---\n# Hello World"));
}

#[test]
fn test_format_md_with_all_fields() {
    let response = FetchResponse {
        url: "https://example.com/page".to_string(),
        status_code: 200,
        content_type: Some("text/html".to_string()),
        size: Some(1234),
        last_modified: Some("Wed, 01 Jan 2025 00:00:00 GMT".to_string()),
        filename: Some("page.html".to_string()),
        truncated: Some(true),
        content: Some("Content here".to_string()),
        ..Default::default()
    };

    let output = format_md_with_frontmatter(&response);

    assert!(output.contains("source_size: 1234\n"));
    assert!(output.contains("last_modified: Wed, 01 Jan 2025 00:00:00 GMT\n"));
    assert!(output.contains("filename: page.html\n"));
    assert!(output.contains("truncated: true\n"));
}

#[test]
fn test_format_md_error_as_body() {
    let response = FetchResponse {
        url: "https://example.com/file.pdf".to_string(),
        status_code: 200,
        content_type: Some("application/pdf".to_string()),
        error: Some("Binary content not supported".to_string()),
        ..Default::default()
    };

    let output = format_md_with_frontmatter(&response);

    assert!(!output.contains("error:"));
    assert!(output.ends_with("---\nBinary content not supported"));
}

#[test]
fn test_format_md_truncated_false_omitted() {
    let response = FetchResponse {
        url: "https://example.com".to_string(),
        status_code: 200,
        truncated: Some(false),
        content: Some("Content".to_string()),
        ..Default::default()
    };

    let output = format_md_with_frontmatter(&response);

    assert!(!output.contains("truncated"));
}

#[test]
fn mcp_frontmatter_lists_error() {
    let response = FetchResponse {
        url: "https://e.com".to_string(),
        status_code: 404,
        size: Some(0),
        error: Some("gone".to_string()),
        ..Default::default()
    };
    assert_eq!(
        format_mcp_frontmatter(&response),
        "---\nurl: https://e.com\nstatus_code: 404\nsize: 0\nerror: gone\n---\n"
    );
}
