//! Fetching web content for downstream consumers: a streaming HTML to
//! Markdown / plain-text converter, entity decoding, whitespace normalisation,
//! content classification, bounded body reading and fetcher dispatch.
use vstd::prelude::*;

pub mod text;
pub mod whitespace;
pub mod entity;
pub mod convert;
pub mod types;
pub mod error;
pub mod classify;
pub mod url;
pub mod body;
pub mod fetchers;
pub mod github;
pub mod tool;
pub mod frontmatter;
pub mod mcp;

verus! {

/// `User-Agent` sent when the options name none.
pub const DEFAULT_USER_AGENT: &'static str = "Everruns FetchKit/1.0";

/// Appended to content whose body was cut short by the body deadline.
pub const TIMEOUT_MESSAGE: &'static str = "\n\n[..more content timed out...]";

/// The explanation given instead of content for a binary body.
pub const BINARY_MESSAGE: &'static str = "Binary content is not supported. Only textual content (HTML, text, JSON, etc.) can be fetched.";

/// Short description of the tool for language-model consumers.
pub const TOOL_DESCRIPTION: &'static str = "Fetches content from a URL and optionally converts HTML to markdown or text.

- Supports GET and HEAD methods
- Converts HTML to markdown or plain text
- Returns metadata for binary content
- Strict timeouts for reliability";

/// Full documentation of the tool for language-model consumers.
pub const TOOL_LLMTXT: &'static str = "# FetchKit Tool

Fetches content from a URL and optionally converts HTML to markdown or text.

## Capabilities
- HTTP GET and HEAD requests
- HTML to Markdown conversion
- HTML to plain text conversion
- Binary content detection (returns metadata only)
- Automatic timeout handling

## Input Parameters
- `url` (required): The URL to fetch (must be http:// or https://)
- `method` (optional): GET or HEAD (default: GET)
- `as_markdown` (optional): Convert HTML to markdown
- `as_text` (optional): Convert HTML to plain text

## Output Fields
- `url`: The fetched URL
- `status_code`: HTTP status code
- `content_type`: Content-Type header value
- `size`: Content size in bytes
- `last_modified`: Last-Modified header value
- `filename`: Extracted filename
- `format`: \"markdown\", \"text\", or \"raw\"
- `content`: The fetched/converted content
- `truncated`: True if content was truncated due to timeout
- `method`: \"HEAD\" for HEAD requests
- `error`: Error message for binary content

## Examples

### Fetch a webpage as markdown
```json
{\"url\": \"https://example.com\", \"as_markdown\": true}
```

### Check if a URL exists (HEAD request)
```json
{\"url\": \"https://example.com/file.pdf\", \"method\": \"HEAD\"}
```

### Fetch raw content
```json
{\"url\": \"https://api.example.com/data.json\"}
```

## Error Handling
- Invalid URLs return an error
- Binary content returns metadata with error message
- Timeouts return partial content with truncated flag
";

} // verus!
