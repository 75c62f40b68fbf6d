use wparse::frconfig::create_configuration;

#[test]
fn configuration_parses_plain_text() {
    let config = create_configuration();
    let parsed = config.parse("Bonjour le monde");
    assert!(!parsed.nodes.is_empty());
}

#[test]
fn configuration_recognizes_redirects() {
    let config = create_configuration();
    let parsed = config.parse("#REDIRECT [[Autre page]]");
    assert!(matches!(parsed.nodes.first(), Some(parse_wiki_text::Node::Redirect { .. })));
}
