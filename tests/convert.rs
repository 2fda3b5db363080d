use fetchkit::convert::{extract_attribute, html_to_markdown, html_to_text, is_html};
use fetchkit::entity::decode_entity;
use fetchkit::whitespace::{clean_whitespace, filter_excessive_newlines};

#[test]
fn test_is_html_by_content_type() {
    assert!(is_html(&Some("text/html".to_string()), ""));
    assert!(is_html(&Some("text/html; charset=utf-8".to_string()), ""));
    assert!(is_html(&Some("application/xhtml+xml".to_string()), ""));
    assert!(!is_html(&Some("text/plain".to_string()), ""));
    assert!(!is_html(&Some("application/json".to_string()), ""));
}

#[test]
fn test_is_html_by_body() {
    assert!(is_html(&None, "<!DOCTYPE html><html>"));
    assert!(is_html(&None, "  <!DOCTYPE html>"));
    assert!(is_html(&None, "<html><body>"));
    assert!(!is_html(&None, "Hello world"));
    assert!(!is_html(&None, "{\"json\": true}"));
}

#[test]
fn is_html_body_ignores_case() {
    assert!(is_html(&None, "\n<!doctype html>"));
    assert!(is_html(&None, "<HTML><body>"));
    assert!(is_html(&Some("TEXT/HTML".to_string()), ""));
    assert!(is_html(&None, "<html lang=\"en\"><body>x</body></html>"));
    assert!(is_html(&None, "  <HTML lang=en>"));
    assert!(!is_html(&None, "<htm>"));
}

#[test]
fn test_html_to_markdown_headers() {
    let html = "<h1>Title</h1><h2>Subtitle</h2>";
    let md = html_to_markdown(html);
    assert!(md.contains("# Title"));
    assert!(md.contains("## Subtitle"));
}

#[test]
fn test_html_to_markdown_paragraphs() {
    let html = "<p>First paragraph</p><p>Second paragraph</p>";
    let md = html_to_markdown(html);
    assert!(md.contains("First paragraph"));
    assert!(md.contains("Second paragraph"));
}

#[test]
fn test_html_to_markdown_lists() {
    let html = "<ul><li>Item 1</li><li>Item 2</li></ul>";
    let md = html_to_markdown(html);
    assert!(md.contains("- Item 1"));
    assert!(md.contains("- Item 2"));
}

#[test]
fn test_html_to_markdown_emphasis() {
    let html = "<p><strong>bold</strong> and <em>italic</em></p>";
    let md = html_to_markdown(html);
    assert!(md.contains("**bold**"));
    assert!(md.contains("*italic*"));
}

#[test]
fn test_html_to_markdown_code() {
    let html = "<pre>code block</pre>";
    let md = html_to_markdown(html);
    assert!(md.contains("```"));
    assert!(md.contains("code block"));
}

#[test]
fn test_html_to_markdown_skip_script() {
    let html = "<p>Before</p><script>alert('bad');</script><p>After</p>";
    let md = html_to_markdown(html);
    assert!(md.contains("Before"));
    assert!(md.contains("After"));
    assert!(!md.contains("alert"));
}

#[test]
fn test_html_to_text_simple() {
    let html = "<p>Hello</p><p>World</p>";
    let text = html_to_text(html);
    assert!(text.contains("Hello"));
    assert!(text.contains("World"));
}

#[test]
fn test_html_to_text_skip_script() {
    let html = "<p>Before</p><script>alert('bad');</script><p>After</p>";
    let text = html_to_text(html);
    assert!(text.contains("Before"));
    assert!(text.contains("After"));
    assert!(!text.contains("alert"));
}

#[test]
fn test_entity_decoding() {
    let html = "<p>&amp; &lt; &gt; &quot; &apos; &nbsp; &mdash; &ndash; &copy; &reg;</p>";
    let text = html_to_text(html);
    assert!(text.contains('&'));
    assert!(text.contains('<'));
    assert!(text.contains('>'));
    assert!(text.contains('"'));
    assert!(text.contains('\''));
    assert!(text.contains('\u{2014}'));
    assert!(text.contains('\u{2013}'));
    assert!(text.contains('\u{a9}'));
    assert!(text.contains('\u{ae}'));
}

#[test]
fn test_filter_excessive_newlines() {
    let input = "line1\n\n\n\n\nline2";
    let output = filter_excessive_newlines(input);
    assert_eq!(output, "line1\n\nline2");
}

#[test]
fn test_clean_whitespace() {
    let input = "  hello   world  \n\n\n\n  test  ";
    let output = clean_whitespace(input);
    assert_eq!(output, "hello world\n\ntest");
}

#[test]
fn test_extract_attribute() {
    assert_eq!(
        extract_attribute("a href=\"https://example.com\" class=\"link\"", "href"),
        Some("https://example.com".to_string())
    );
    assert_eq!(
        extract_attribute("img src='image.png'", "src"),
        Some("image.png".to_string())
    );
    assert_eq!(
        extract_attribute("div class=test", "class"),
        Some("test".to_string())
    );
}

#[test]
fn extract_attribute_edge_cases() {
    assert_eq!(extract_attribute("a HREF=x", "href"), Some("x".to_string()));
    assert_eq!(extract_attribute("a href=  \"spaced\"", "href"), Some("spaced".to_string()));
    assert_eq!(extract_attribute("a href=\"open", "href"), None);
    assert_eq!(extract_attribute("a name=x", "href"), None);
}

fn decode_one(s: &str) -> (char, usize) {
    let cs: Vec<char> = s.chars().collect();
    decode_entity(&cs, 0)
}

#[test]
fn entity_round_trip_named() {
    assert_eq!(decode_one("&amp;").0, '&');
    assert_eq!(decode_one("&lt;").0, '<');
    assert_eq!(decode_one("&gt;").0, '>');
    assert_eq!(decode_one("&quot;").0, '"');
    assert_eq!(decode_one("&apos;").0, '\'');
    assert_eq!(decode_one("&amp;"), ('&', 5));
}

#[test]
fn entity_round_trip_numeric() {
    assert_eq!(decode_one("&#65;"), ('A', 5));
    assert_eq!(decode_one("&#x41;"), ('A', 6));
    assert_eq!(decode_one("&#39;").0, '\'');
    assert_eq!(decode_one("&#xD800;").0, '&');
    assert_eq!(decode_one("&#99999999999;").0, '&');
}

#[test]
fn entity_unknown_and_aborted() {
    assert_eq!(decode_one("&bogus;"), ('&', 7));
    assert_eq!(decode_one("& x"), ('&', 1));
    assert_eq!(decode_one("&abcdefghijklmnop;"), ('&', 11));
    assert_eq!(decode_one("&abcdefghij;").0, '&');
    assert_eq!(decode_one("&abcdefghij;").1, 12);
    assert_eq!(decode_one("x"), ('x', 1));
    assert_eq!(decode_one("&lt"), ('<', 3));
}

#[test]
fn markdown_scenario_heading_bold_list() {
    let html = "<h1>Hello World</h1><p>This is a <strong>test</strong> paragraph.</p><ul><li>Item 1</li><li>Item 2</li></ul>";
    let md = html_to_markdown(html);
    assert!(md.contains("# Hello World"));
    assert!(md.contains("**test**"));
    assert!(md.contains("- Item 1"));
    assert!(md.contains("- Item 2"));
    assert_eq!(md, "# Hello World\n\nThis is a **test** paragraph.\n\n- Item 1\n- Item 2");
}

#[test]
fn text_scenario_entities() {
    let text = html_to_text("<p>Tom &amp; Jerry &lt;3 &gt; others &quot;quoted&quot;</p>");
    assert!(text.contains("Tom & Jerry"));
    assert!(text.contains("<3"));
    assert!(text.contains("> others"));
    assert!(text.contains("\"quoted\""));
}

#[test]
fn markdown_blocks_links_and_quotes() {
    assert_eq!(html_to_markdown("<a href=\"https://x.org\">site</a>"), "[](https://x.org)site");
    assert_eq!(html_to_markdown("<blockquote>a\nb</blockquote>"), "> a\n> b");
    assert_eq!(html_to_markdown("<hr>"), "---");
    assert_eq!(html_to_markdown("<ul><li>a<ul><li>b</li></ul></li></ul>"), "- a\n- b");
    assert_eq!(html_to_markdown("<pre><code>x</code></pre>"), "```\nx\n```");
    assert_eq!(html_to_markdown("<p><code>x</code></p>"), "`x`");
}

#[test]
fn skip_elements_close_by_name() {
    assert_eq!(html_to_markdown("<script>a<style>b</script>c</style>d"), "d");
    assert_eq!(html_to_text("<svg/>shown"), "shown");
    assert_eq!(html_to_text("<SCRIPT>x</SCRIPT>y"), "y");
}

#[test]
fn text_mode_line_breaks() {
    assert_eq!(html_to_text("<h2>T</h2>body<br>next"), "T\nbody\nnext");
    assert_eq!(html_to_text("<table><tr><td>a</td></tr><tr><td>b</td></tr></table>"), "a\nb");
}

#[test]
fn clean_whitespace_is_idempotent_on_examples() {
    for s in ["  a \t b \n \n \n c ", "a\n \n \nb", "\u{a0}x\u{2003}y", "", "\n\n\n"] {
        let once = clean_whitespace(s);
        assert_eq!(clean_whitespace(&once), once);
    }
    assert_eq!(clean_whitespace("a\n \n \nb"), "a\n\nb");
    assert_eq!(clean_whitespace("a \t b"), "a b");
}

#[test]
fn newline_cap_on_examples() {
    for s in ["\n\n\n\n", "a\n\n\nb", "x \n\n\n\n y"] {
        assert!(!clean_whitespace(s).contains("\n\n\n"));
        assert!(!filter_excessive_newlines(s).contains("\n\n\n"));
        let once = filter_excessive_newlines(s);
        assert_eq!(filter_excessive_newlines(&once), once);
    }
    assert_eq!(filter_excessive_newlines("a \n\n\n b"), "a \n\n b");
}
