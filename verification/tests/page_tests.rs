use wparse::normalize::normalize;
use wparse::page::{admits, page_output, page_text, rewrite_fin};
use wparse::tree::{Node, Page};
use wparse::Page as ReexportedPage;

fn text(s: &str) -> Node {
    Node::Text { value: s.to_string() }
}

fn content_page(namespace: i64) -> Page {
    Page {
        title: "Some page".to_string(),
        namespace,
        format: Some("text/x-wiki".to_string()),
        model: Some("wikitext".to_string()),
        raw_text: "irrelevant here".to_string(),
    }
}

#[test]
fn redirect_page_yields_no_output() {
    let nodes = vec![Node::Redirect];
    assert_eq!(page_text(&nodes), None);
}

#[test]
fn redirect_only_counts_at_the_first_position() {
    let nodes = vec![text("a"), Node::Redirect];
    assert_eq!(page_text(&nodes), Some("a".to_string()));
}

#[test]
fn empty_tree_yields_empty_output() {
    let nodes: Vec<Node> = vec![];
    assert_eq!(page_text(&nodes), Some("".to_string()));
}

#[test]
fn page_text_is_normalized() {
    let nodes = vec![
        text("a"),
        Node::ParagraphBreak,
        text("  "),
        Node::ParagraphBreak,
        text("b"),
    ];
    assert_eq!(page_text(&nodes), Some("a\nb".to_string()));
}

#[test]
fn admission_accepts_the_allow_listed_namespaces() {
    for ns in [0, 1, 4, 12] {
        assert!(admits(&content_page(ns)));
    }
}

#[test]
fn admission_rejects_other_namespaces() {
    for ns in [2, 3, 5, 10, 14, -1] {
        assert!(!admits(&content_page(ns)));
    }
}

#[test]
fn admission_rejects_wrong_format_or_model() {
    let mut p = content_page(0);
    p.format = Some("application/json".to_string());
    assert!(!admits(&p));
    let mut p = content_page(0);
    p.format = None;
    assert!(!admits(&p));
    let mut p = content_page(0);
    p.model = Some("flow-board".to_string());
    assert!(!admits(&p));
    let mut p = content_page(0);
    p.model = None;
    assert!(!admits(&p));
}

#[test]
fn inadmissible_page_produces_no_output() {
    let nodes = vec![text("content that would otherwise be emitted")];
    assert_eq!(page_output(&content_page(2), &nodes), None);
}

#[test]
fn admissible_page_produces_its_flattened_text() {
    let nodes = vec![text("content")];
    assert_eq!(page_output(&content_page(0), &nodes), Some("content".to_string()));
}

#[test]
fn reexported_page_type_is_the_tree_page() {
    let p: ReexportedPage = content_page(0);
    assert_eq!(p.namespace, 0);
}

#[test]
fn normalize_collapses_newline_plus_whitespace_runs() {
    assert_eq!(normalize("a\n   \t\n  b"), "a\nb");
}

#[test]
fn normalize_keeps_interior_spaces_not_preceded_by_newline() {
    assert_eq!(normalize("a  b\nc"), "a  b\nc");
}

#[test]
fn normalize_of_normalized_text_is_identical() {
    let s = "first line\nsecond line\nthird";
    assert_eq!(normalize(s), s);
}

#[test]
fn normalize_is_idempotent() {
    let raw = "a\n \n \nb \n\tc\n";
    let once = normalize(raw);
    let twice = normalize(&once);
    assert_eq!(once, twice);
}

#[test]
fn rewrite_fin_replaces_the_marker() {
    assert_eq!(rewrite_fin("before {{fin}} after"), "before |} after");
}

#[test]
fn rewrite_fin_replaces_every_occurrence() {
    assert_eq!(rewrite_fin("{{fin}}x{{fin}}"), "|}x|}");
}

#[test]
fn rewrite_fin_leaves_other_text_alone() {
    assert_eq!(rewrite_fin("{{début}} and {{fin"), "{{début}} and {{fin");
}
