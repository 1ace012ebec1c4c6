use rustico::template::{render_template, TemplateVars};
use rustico::text::{parse_bool, parse_u16, parse_u64, split_trimmed, trim_str, truncate_chars};
use rustico::utils::{
    clean_html, decode_entity, decode_found_entities, decode_html_entities, extract_text,
    normalize_lines, EntityMatch, HtmlNode,
};

#[test]
fn test_clean_html_basic() {
    let html = "<p>Hello <b>world</b></p>";
    let result = clean_html(html);
    assert!(result.contains("Hello"));
    assert!(result.contains("world"));
}

#[test]
fn test_clean_html_entities() {
    let html = "Hello &amp; goodbye &quot;world&quot;";
    let result = clean_html(html);
    assert!(result.contains("&"));
    assert!(result.contains("\""));
}

#[test]
fn test_clean_html_line_breaks() {
    let html = "<p>Line 1</p><p>Line 2</p>";
    let result = clean_html(html);
    assert!(result.contains("Line 1"));
    assert!(result.contains("Line 2"));
}

#[test]
fn test_clean_html_empty() {
    assert_eq!(clean_html(""), "");
}

#[test]
fn test_clean_html_nested_tags() {
    let html = "<div><p>Outer <span>inner</span></p></div>";
    let result = clean_html(html);
    assert!(result.contains("Outer"));
    assert!(result.contains("inner"));
}

#[test]
fn test_decode_numeric_entity() {
    let html = "&#65;&#66;&#67;";
    let result = clean_html(html);
    assert!(result.contains("A"));
    assert!(result.contains("B"));
    assert!(result.contains("C"));
}

#[test]
fn test_clean_html_list_items() {
    let html = "<ul><li>Item 1</li><li>Item 2</li></ul>";
    let result = clean_html(html);
    assert!(result.contains("Item 1"));
    assert!(result.contains("Item 2"));
    assert!(result.contains("•"));
}

#[test]
fn clean_html_exact_paragraphs() {
    assert_eq!(clean_html("<p>Line 1</p><p>Line 2</p>"), "Line 1\nLine 2");
    assert_eq!(clean_html("<ul><li>Item 1</li><li>Item 2</li></ul>"), "• Item 1\n• Item 2");
    assert_eq!(clean_html("<p>Hello <b>world</b></p>"), "Hello world");
}

#[test]
fn decode_entities_forms() {
    assert_eq!(decode_html_entities("&#65;&#x42;&#x63;"), "ABc");
    assert_eq!(decode_html_entities("a &lt;b&gt; &apos;c&apos; d&nbsp;e"), "a <b> 'c' d e");
    assert_eq!(decode_html_entities("&unknown; &#xD800; &#99999999999;"), "&unknown; &#xD800; &#99999999999;");
    assert_eq!(decode_html_entities("no references here"), "no references here");
    assert_eq!(decode_html_entities("&amp;amp;"), "&amp;");
}

#[test]
fn normalize_lines_drops_blank_lines() {
    assert_eq!(normalize_lines("  a \n\n \t\n b  \n"), "a\nb");
    assert_eq!(normalize_lines(""), "");
}

#[test]
fn render_template_substitutes_known_names() {
    let mut vars = TemplateVars::new();
    vars.insert("title", "Frieren".to_string());
    vars.insert("episode", "7".to_string());
    assert_eq!(render_template("# {title} EP{episode}", &vars), "# Frieren EP7");
    assert_eq!(render_template("{missing} {title}", &vars), "{missing} Frieren");
    assert_eq!(render_template("{{title}}", &vars), "{Frieren}");
    assert_eq!(render_template("plain text", &vars), "plain text");
    assert_eq!(render_template("{title", &vars), "{title");
}

#[test]
fn text_helpers() {
    assert_eq!(trim_str("\u{3000} x y \n"), "x y");
    assert_eq!(split_trimmed(" a, ,b ,", ','), vec!["a".to_string(), "b".to_string()]);
    assert_eq!(truncate_chars("héllo", 3), "hél...");
    assert_eq!(truncate_chars("hé", 3), "hé");
    assert_eq!(parse_u64("+15"), Some(15));
    assert_eq!(parse_u64("+"), None);
    assert_eq!(parse_u64("-1"), None);
    assert_eq!(parse_u64("18446744073709551616"), None);
    assert_eq!(parse_u64("18446744073709551615"), Some(u64::MAX));
    assert_eq!(parse_u16("65536"), None);
    assert_eq!(parse_bool("true"), Some(true));
    assert_eq!(parse_bool("True"), None);
}

#[test]
fn extract_and_decode_parts() {
    let nodes = vec![
        HtmlNode::Element("p".to_string()),
        HtmlNode::Text("  Hello  ".to_string()),
        HtmlNode::Element("li".to_string()),
        HtmlNode::Text("   ".to_string()),
        HtmlNode::Other,
        HtmlNode::Element("b".to_string()),
        HtmlNode::Text("x".to_string()),
    ];
    assert_eq!(extract_text(&nodes), "\nHello \n• x ");
    let m = |before: &str, d: Option<&str>, h: Option<&str>, n: Option<&str>| EntityMatch {
        before: before.to_string(),
        decimal: d.map(String::from),
        hex: h.map(String::from),
        named: n.map(String::from),
    };
    assert_eq!(decode_entity(&m("", Some("65"), None, None)), "A");
    assert_eq!(decode_entity(&m("", None, Some("1F600"), None)), "😀");
    assert_eq!(decode_entity(&m("", Some("55296"), None, None)), "&#55296;");
    assert_eq!(decode_entity(&m("", None, None, Some("copy"))), "&copy;");
    let found = vec![m("a ", None, None, Some("amp")), m(" b", Some("66"), None, None)];
    assert_eq!(decode_found_entities(&found, " c"), "a & bB c");
}
