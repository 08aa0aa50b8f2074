use vstd::prelude::*;

verus! {

/// Everything before the stylesheet address.
pub const DOC_HEAD: &'static str = "<!DOCTYPE html>\n<html lang=\"en\">\n<head>\n    <meta charset=\"UTF-8\">\n    <meta name=\"viewport\" content=\"width=device-width, initial-scale=1.0\">\n    <title>Converted Markdown</title>\n    <link rel=\"stylesheet\" href=\"";

/// From the end of the stylesheet link to the first class selector.
pub const STYLE_OPEN: &'static str = "\">\n    <style>\n        body {\n            font-family: -apple-system, BlinkMacSystemFont, 'Segoe UI', 'Noto Sans', Helvetica, Arial, sans-serif;\n            line-height: 1.6;\n            max-width: 800px;\n            margin: 0 auto;\n            padding: 20px;\n        }\n        .";

/// The wrapper class rule and the start of the narrow-screen block.
pub const SCREEN_RULE: &'static str = " {\n            box-sizing: border-box;\n            min-width: 200px;\n            max-width: 980px;\n            margin: 0 auto;\n            padding: 45px;\n        }\n        @media (max-width: 767px) {\n            .";

/// The narrow-screen rule and the start of the print block.
pub const NARROW_RULE: &'static str = " {\n                padding: 15px;\n            }\n        }\n        @media print {\n            body {\n                max-width: none;\n                margin: 0;\n                padding: 0;\n            }\n            .";

/// The print rule, the end of the head, and the opening of the body tag.
pub const PRINT_RULE: &'static str = " {\n                max-width: none;\n                margin: 0;\n                padding: 20px;\n            }\n        }\n    </style>\n</head>\n<body class=\"";

/// The end of the opening body tag.
pub const BODY_OPEN: &'static str = "\">\n";

/// Everything after the content.
pub const DOC_TAIL: &'static str = "\n</body>\n</html>";

/// The complete page: a stylesheet link to `css_url`, screen, narrow-screen
/// and print rules for the class `css_class`, and `content` inside a body
/// element of that class.
pub open spec fn html_document(content: Seq<char>, css_url: Seq<char>, css_class: Seq<char>) -> Seq<char> {
    DOC_HEAD@ + css_url + STYLE_OPEN@ + css_class + SCREEN_RULE@ + css_class + NARROW_RULE@ + css_class
        + PRINT_RULE@ + css_class + BODY_OPEN@ + content + DOC_TAIL@
}

/// Wraps a rendered HTML fragment into a complete, styled HTML page.
pub fn create_html_document(html_content: &str, css_url: &str, css_class: &str) -> (r: String)
    ensures
        r@ == html_document(html_content@, css_url@, css_class@),
{
    let mut r = String::from_str(DOC_HEAD);
    r.append(css_url);
    r.append(STYLE_OPEN);
    r.append(css_class);
    r.append(SCREEN_RULE);
    r.append(css_class);
    r.append(NARROW_RULE);
    r.append(css_class);
    r.append(PRINT_RULE);
    r.append(css_class);
    r.append(BODY_OPEN);
    r.append(html_content);
    r.append(DOC_TAIL);
    r
}

} // verus!
