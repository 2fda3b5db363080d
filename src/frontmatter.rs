//! Rendering a response as Markdown with a metadata block in front.
use vstd::prelude::*;
use crate::types::WebFetchResponse;
use crate::text::{decimal, decimal_string};

verus! {

pub open spec fn field(key: Seq<char>, value: Seq<char>) -> Seq<char> {
    key + value + "\n"@
}

pub open spec fn opt_field(key: Seq<char>, value: Option<String>) -> Seq<char> {
    match value {
        Some(v) => field(key, v@),
        None => Seq::empty(),
    }
}

pub open spec fn size_field(key: Seq<char>, size: Option<u64>) -> Seq<char> {
    match size {
        Some(n) => field(key, decimal(n as nat)),
        None => Seq::empty(),
    }
}

pub open spec fn truncated_field(t: Option<bool>) -> Seq<char> {
    if t == Some(true) {
        "truncated: true\n"@
    } else {
        Seq::empty()
    }
}

/// Metadata between `---` lines, then the content, or the error when there
/// is no content.
pub open spec fn frontmatter_of(r: &WebFetchResponse) -> Seq<char> {
    let body = match r.content {
        Some(c) => c@,
        None => match r.error {
            Some(e) => e@,
            None => Seq::empty(),
        },
    };
    "---\n"@ + field("url: "@, r.url@) + field("status_code: "@, decimal(r.status_code as nat))
        + opt_field("source_content_type: "@, r.content_type) + size_field("source_size: "@, r.size)
        + opt_field("last_modified: "@, r.last_modified) + opt_field("filename: "@, r.filename)
        + truncated_field(r.truncated) + "---\n"@ + body
}

/// The variant of the metadata block that the tool protocol serves: the
/// error is a metadata field, and only content follows the block.
pub open spec fn mcp_frontmatter_of(r: &WebFetchResponse) -> Seq<char> {
    let body = match r.content {
        Some(c) => c@,
        None => Seq::empty(),
    };
    "---\n"@ + field("url: "@, r.url@) + field("status_code: "@, decimal(r.status_code as nat))
        + opt_field("content_type: "@, r.content_type) + size_field("size: "@, r.size) + opt_field(
        "last_modified: "@,
        r.last_modified,
    ) + opt_field("filename: "@, r.filename) + truncated_field(r.truncated) + opt_field(
        "error: "@,
        r.error,
    ) + "---\n"@ + body
}

fn push_field(out: &mut String, key: &str, value: &str)
    ensures
        final(out)@ == old(out)@ + field(key@, value@),
{
    out.append(key);
    out.append(value);
    out.append("\n");
    assert(final(out)@ =~= old(out)@ + field(key@, value@));
}

fn push_opt_field(out: &mut String, key: &str, value: &Option<String>)
    ensures
        final(out)@ == old(out)@ + opt_field(key@, *value),
{
    match value {
        Some(v) => push_field(out, key, v.as_str()),
        None => {
            assert(old(out)@ + Seq::<char>::empty() =~= old(out)@);
        },
    }
}

fn push_size_field(out: &mut String, key: &str, size: Option<u64>)
    ensures
        final(out)@ == old(out)@ + size_field(key@, size),
{
    match size {
        Some(n) => push_field(out, key, decimal_string(n).as_str()),
        None => {
            assert(old(out)@ + Seq::<char>::empty() =~= old(out)@);
        },
    }
}

fn push_truncated(out: &mut String, t: Option<bool>)
    ensures
        final(out)@ == old(out)@ + truncated_field(t),
{
    if t == Some(true) {
        out.append("truncated: true\n");
    } else {
        assert(old(out)@ + Seq::<char>::empty() =~= old(out)@);
    }
}

/// Renders a response as Markdown with a metadata block in front.
pub fn format_md_with_frontmatter(response: &WebFetchResponse) -> (r: String)
    ensures
        r@ == frontmatter_of(response),
{
    let mut out = String::from_str("---\n");
    push_field(&mut out, "url: ", response.url.as_str());
    push_field(&mut out, "status_code: ", decimal_string(response.status_code as u64).as_str());
    push_opt_field(&mut out, "source_content_type: ", &response.content_type);
    push_size_field(&mut out, "source_size: ", response.size);
    push_opt_field(&mut out, "last_modified: ", &response.last_modified);
    push_opt_field(&mut out, "filename: ", &response.filename);
    push_truncated(&mut out, response.truncated);
    out.append("---\n");
    match &response.content {
        Some(c) => out.append(c.as_str()),
        None => match &response.error {
            Some(e) => out.append(e.as_str()),
            None => {
                assert(out@ + Seq::<char>::empty() =~= out@);
            },
        },
    }
    out
}

/// Renders a response for the tool protocol: the error, if any, is a
/// metadata field.
pub fn format_mcp_frontmatter(response: &WebFetchResponse) -> (r: String)
    ensures
        r@ == mcp_frontmatter_of(response),
{
    let mut out = String::from_str("---\n");
    push_field(&mut out, "url: ", response.url.as_str());
    push_field(&mut out, "status_code: ", decimal_string(response.status_code as u64).as_str());
    push_opt_field(&mut out, "content_type: ", &response.content_type);
    push_size_field(&mut out, "size: ", response.size);
    push_opt_field(&mut out, "last_modified: ", &response.last_modified);
    push_opt_field(&mut out, "filename: ", &response.filename);
    push_truncated(&mut out, response.truncated);
    push_opt_field(&mut out, "error: ", &response.error);
    out.append("---\n");
    match &response.content {
        Some(c) => out.append(c.as_str()),
        None => {
            assert(out@ + Seq::<char>::empty() =~= out@);
        },
    }
    out
}

} // verus!
