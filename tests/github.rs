use fetchkit::github::{base64_decode, decode_base64_content, format_github_repo_response,
    GitHubLicense, GitHubOwner, GitHubRepo, GitHubRepoFetcher};
use fetchkit::url::ParsedUrl;

fn parse(u: &str) -> ParsedUrl {
    ParsedUrl::parse(u).unwrap()
}

#[test]
fn test_parse_github_url_valid() {
    let url = parse("https://github.com/owner/repo");
    assert_eq!(
        GitHubRepoFetcher::parse_github_url(&url),
        Some(("owner".to_string(), "repo".to_string()))
    );
}

#[test]
fn test_parse_github_url_with_trailing_slash() {
    let url = parse("https://github.com/owner/repo/");
    assert_eq!(GitHubRepoFetcher::parse_github_url(&url), None);
}

#[test]
fn test_parse_github_url_too_many_segments() {
    let url = parse("https://github.com/owner/repo/issues");
    assert_eq!(GitHubRepoFetcher::parse_github_url(&url), None);

    let url = parse("https://github.com/owner/repo/blob/main/README.md");
    assert_eq!(GitHubRepoFetcher::parse_github_url(&url), None);
}

#[test]
fn test_parse_github_url_too_few_segments() {
    let url = parse("https://github.com/owner");
    assert_eq!(GitHubRepoFetcher::parse_github_url(&url), None);

    let url = parse("https://github.com/");
    assert_eq!(GitHubRepoFetcher::parse_github_url(&url), None);
}

#[test]
fn test_parse_github_url_reserved_paths() {
    let url = parse("https://github.com/settings/profile");
    assert_eq!(GitHubRepoFetcher::parse_github_url(&url), None);

    let url = parse("https://github.com/explore/topics");
    assert_eq!(GitHubRepoFetcher::parse_github_url(&url), None);
}

#[test]
fn test_parse_github_url_wrong_host() {
    let url = parse("https://gitlab.com/owner/repo");
    assert_eq!(GitHubRepoFetcher::parse_github_url(&url), None);
}

#[test]
fn test_fetcher_matches() {
    let fetcher = GitHubRepoFetcher::new();

    let url = parse("https://github.com/rust-lang/rust");
    assert!(fetcher.matches(&url));

    let url = parse("https://github.com/rust-lang/rust/issues");
    assert!(!fetcher.matches(&url));

    let url = parse("https://example.com/foo/bar");
    assert!(!fetcher.matches(&url));
}

#[test]
fn parsed_url_parts() {
    let u = parse("https://github.com/a/b");
    assert_eq!(u.host, Some("github.com".to_string()));
    assert_eq!(u.segments, Some(vec!["a".to_string(), "b".to_string()]));
    assert!(ParsedUrl::parse("not a url").is_none());
}

#[test]
fn test_base64_decode() {
    assert_eq!(
        base64_decode("SGVsbG8sIFdvcmxkIQ=="),
        Some(b"Hello, World!".to_vec())
    );
    assert_eq!(base64_decode(""), Some(vec![]));
    assert_eq!(base64_decode("abc"), None);
}

#[test]
fn base64_invalid_character() {
    assert_eq!(base64_decode("ab*d"), None);
    assert_eq!(base64_decode("/+9A"), Some(vec![0xff, 0xef, 0x40]));
}

#[test]
fn base64_content_with_line_breaks() {
    assert_eq!(
        decode_base64_content("SGVs\nbG8s IFdv\ncmxkIQ==\n"),
        Some("Hello, World!".to_string())
    );
    assert_eq!(decode_base64_content("//79"), None);
    assert_eq!(
        GitHubRepoFetcher::readme_text("base64", "SGk="),
        Some("Hi".to_string())
    );
    assert_eq!(GitHubRepoFetcher::readme_text("utf-8", "SGk="), None);
}

fn sample_repo() -> GitHubRepo {
    GitHubRepo {
        name: "test-repo".to_string(),
        full_name: "owner/test-repo".to_string(),
        description: Some("A test repository".to_string()),
        html_url: "https://github.com/owner/test-repo".to_string(),
        homepage: None,
        stargazers_count: 100,
        forks_count: 10,
        open_issues_count: 5,
        language: Some("Rust".to_string()),
        license: Some(GitHubLicense {
            name: "MIT License".to_string(),
            spdx_id: Some("MIT".to_string()),
        }),
        default_branch: "main".to_string(),
        created_at: "2024-01-01T00:00:00Z".to_string(),
        updated_at: "2024-06-01T00:00:00Z".to_string(),
        pushed_at: "2024-06-01T00:00:00Z".to_string(),
        topics: Some(vec!["rust".to_string(), "cli".to_string()]),
        archived: false,
        fork: false,
        owner: GitHubOwner {
            login: "owner".to_string(),
            owner_type: "User".to_string(),
        },
    }
}

#[test]
fn test_format_github_repo_response() {
    let repo = sample_repo();
    let output = format_github_repo_response(&repo, Some("# Test\n\nThis is a test README."));

    assert!(output.contains("# owner/test-repo"));
    assert!(output.contains("A test repository"));
    assert!(output.contains("**Stars:** 100"));
    assert!(output.contains("**Language:** Rust"));
    assert!(output.contains("**License:** MIT"));
    assert!(output.contains("## README"));
    assert!(output.contains("This is a test README."));
}

#[test]
fn github_page_exact_layout() {
    let mut repo = sample_repo();
    repo.description = None;
    repo.language = None;
    repo.license = None;
    repo.topics = Some(vec![]);
    repo.archived = true;
    repo.fork = true;
    repo.homepage = Some("https://h.io".to_string());
    let out = format_github_repo_response(&repo, None);
    assert_eq!(
        out,
        "# owner/test-repo\n\n## Repository Info\n\n- **Stars:** 100\n- **Forks:** 10\n- **Open Issues:** 5\n\
- **URL:** https://github.com/owner/test-repo\n- **Homepage:** https://h.io\n- **Default Branch:** main\n\
- **Owner:** owner (User)\n- **Status:** Archived\n- **Fork:** Yes\n- **Created:** 2024-01-01T00:00:00Z\n\
- **Last Updated:** 2024-06-01T00:00:00Z\n- **Last Push:** 2024-06-01T00:00:00Z\n"
    );
    let full = format_github_repo_response(&sample_repo(), Some("R"));
    assert!(full.contains("- **Topics:** rust, cli\n"));
    assert!(full.ends_with("\n---\n\n## README\n\nR"));
}

#[test]
fn github_status_responses() {
    let u = "https://github.com/o/r";
    assert!(GitHubRepoFetcher::status_response(u, "o", "r", 200).is_none());
    let r = GitHubRepoFetcher::status_response(u, "o", "r", 404).unwrap();
    assert_eq!(r.status_code, 404);
    assert_eq!(r.error, Some("Repository o/r not found".to_string()));
    let r = GitHubRepoFetcher::status_response(u, "o", "r", 403).unwrap();
    assert_eq!(r.error, Some("GitHub API rate limit exceeded".to_string()));
    let r = GitHubRepoFetcher::status_response(u, "o", "r", 502).unwrap();
    assert_eq!(r.error, Some("GitHub API error: HTTP 502".to_string()));
    assert_eq!(
        GitHubRepoFetcher::readme_api_url("o", "r"),
        "https://api.github.com/repos/o/r/readme"
    );
    let ok = GitHubRepoFetcher::repo_response(u, &sample_repo(), None);
    assert_eq!(ok.status_code, 200);
    assert_eq!(ok.format, Some("github_repo".to_string()));
    assert_eq!(ok.content_type, Some("text/markdown".to_string()));
}
