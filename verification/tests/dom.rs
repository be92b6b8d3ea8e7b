use obscura_mcp::dom::{extract_text, snapshot, DomNode};

fn t(s: &str) -> DomNode {
    DomNode::Text(s.to_string())
}

fn el(tag: &str, children: Vec<DomNode>) -> DomNode {
    DomNode::Element { tag: tag.to_string(), children }
}

#[test]
fn text_nodes_are_trimmed_and_followed_by_a_space() {
    assert_eq!(extract_text(&t("  Hello  ")), "Hello ");
    assert_eq!(extract_text(&t(" \n\t ")), "");
}

#[test]
fn hidden_elements_contribute_nothing() {
    let body = el("body", vec![
        el("script", vec![t("var x = 1;")]),
        el("style", vec![t("p { color: red }")]),
        el("noscript", vec![t("enable js")]),
        el("span", vec![t("visible")]),
    ]);
    assert_eq!(extract_text(&body), "visible ");
}

#[test]
fn block_elements_are_wrapped_in_line_breaks() {
    let body = el("body", vec![
        el("h1", vec![t("Title")]),
        el("p", vec![t("First"), el("b", vec![t("bold")])]),
        DomNode::Other { children: vec![] },
        el("span", vec![t(" tail ")]),
    ]);
    assert_eq!(extract_text(&body), "\nTitle \n\nFirst bold \ntail ");
}

#[test]
fn other_nodes_pass_their_children_through() {
    let doc = DomNode::Other { children: vec![el("div", vec![t("x")])] };
    assert_eq!(extract_text(&doc), "\nx \n");
}

#[test]
fn snapshot_reports_url_title_and_trimmed_body_text() {
    let body = el("body", vec![el("h1", vec![t("Example Domain")]), el("p", vec![t("More text.")])]);
    assert_eq!(
        snapshot("https://example.com/", "Example Domain", &Some(body)),
        "URL: https://example.com/\nTitle: Example Domain\n\nExample Domain \n\nMore text."
    );
}

#[test]
fn snapshot_without_a_body() {
    assert_eq!(snapshot("about:blank", "", &None), "URL: about:blank\nTitle: \n\n");
}
