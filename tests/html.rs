use yamc::config::{GITHUB_CSS_URL, MARKDOWN_CLASS};
use yamc::html::create_html_document;

#[test]
fn hello_fragment_is_wrapped_once() {
    let page = create_html_document("<p>Hello</p>\n", GITHUB_CSS_URL, MARKDOWN_CLASS);
    assert_eq!(page.matches("<p>Hello</p>").count(), 1);
    assert!(page.contains("<body class=\"markdown-body\">\n<p>Hello</p>\n\n</body>"));
    assert!(page.starts_with("<!DOCTYPE html>"));
    assert!(page.ends_with("</html>"));
}

#[test]
fn stylesheet_and_class_are_injected() {
    let page = create_html_document("", "https://example.com/a.css", "doc");
    assert!(page.contains("<link rel=\"stylesheet\" href=\"https://example.com/a.css\">"));
    assert_eq!(page.matches(".doc {").count(), 3);
    assert!(page.contains("<body class=\"doc\">"));
    assert!(page.contains("@media print"));
    assert!(page.contains("@media (max-width: 767px)"));
}

#[test]
fn assembly_is_deterministic() {
    let a = create_html_document("<h1>x</h1>", "u", "c");
    let b = create_html_document("<h1>x</h1>", "u", "c");
    assert_eq!(a, b);
}
