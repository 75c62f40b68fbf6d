use wparse::flatten::{flatten_node, flatten_nodes, flatten_template, list_fragment};
use wparse::tree::{ListItem, Node, Parameter};

fn text(s: &str) -> Node {
    Node::Text { value: s.to_string() }
}

fn item(nodes: Vec<Node>) -> ListItem {
    ListItem { nodes }
}

fn unnamed(value: Vec<Node>) -> Parameter {
    Parameter { name: None, value }
}

fn named(name: &str, value: Vec<Node>) -> Parameter {
    Parameter { name: Some(vec![text(name)]), value }
}

#[test]
fn text_and_breaks_concatenate_in_order() {
    let ns = vec![text("Hello "), Node::ParagraphBreak, text("world")];
    assert_eq!(flatten_nodes(&ns), "Hello \nworld");
}

#[test]
fn empty_sequence_flattens_to_empty() {
    let ns: Vec<Node> = vec![];
    assert_eq!(flatten_nodes(&ns), "");
}

#[test]
fn link_keeps_display_text_only() {
    let n = Node::Link { text: vec![text("display")] };
    assert_eq!(flatten_node(&n), Some("display".to_string()));
}

#[test]
fn character_entity_decodes() {
    let n = Node::CharacterEntity { character: 'é' };
    assert_eq!(flatten_node(&n), Some("é".to_string()));
}

#[test]
fn heading_is_suppressed() {
    let n = Node::Heading { nodes: vec![text("Title")] };
    assert_eq!(flatten_node(&n), None);
}

#[test]
fn redirect_node_contributes_nothing() {
    assert_eq!(flatten_node(&Node::Redirect), None);
}

#[test]
fn unrecognized_node_contributes_nothing() {
    assert_eq!(flatten_node(&Node::Other), None);
}

#[test]
fn external_link_emits_caption_after_first_space() {
    let n = Node::ExternalLink { nodes: vec![text("http://example.org Caption text")] };
    assert_eq!(flatten_node(&n), Some("Caption text".to_string()));
}

#[test]
fn external_link_without_caption_emits_nothing_for_that_part() {
    let n = Node::ExternalLink { nodes: vec![text("http://example.org")] };
    assert_eq!(flatten_node(&n), Some("".to_string()));
}

#[test]
fn external_link_appends_trailing_siblings() {
    let n = Node::ExternalLink {
        nodes: vec![text("http://example.org Caption"), text(" tail")],
    };
    assert_eq!(flatten_node(&n), Some("Caption tail".to_string()));
}

#[test]
fn external_link_with_non_text_head_degrades_to_nothing() {
    let n = Node::ExternalLink { nodes: vec![Node::ParagraphBreak] };
    assert_eq!(flatten_node(&n), None);
}

#[test]
fn image_takes_rightmost_pipe_segment_as_caption() {
    let n = Node::Image { text: vec![text("thumb|left|The caption")] };
    assert_eq!(flatten_node(&n), Some("The caption\n".to_string()));
}

#[test]
fn image_without_pipes_keeps_whole_text() {
    let n = Node::Image { text: vec![text("Plain caption")] };
    assert_eq!(flatten_node(&n), Some("Plain caption\n".to_string()));
}

#[test]
fn image_with_non_text_head_flattens_children() {
    let n = Node::Image { text: vec![Node::ParagraphBreak, text("x")] };
    assert_eq!(flatten_node(&n), Some("\nx".to_string()));
}

#[test]
fn unordered_list_two_items() {
    let n = Node::UnorderedList { items: vec![item(vec![text("a")]), item(vec![text("b")])] };
    assert_eq!(flatten_node(&n), Some("\na\nb\n".to_string()));
}

#[test]
fn list_items_joined_in_item_order() {
    let items = vec![item(vec![text("first")]), item(vec![text("second")]), item(
        vec![text("third")],
    )];
    assert_eq!(list_fragment(&items), "\nfirst\nsecond\nthird\n");
}

#[test]
fn ordered_and_definition_lists_share_the_rule() {
    let items = vec![item(vec![text("a")]), item(vec![text("b")])];
    let ordered = Node::OrderedList { items: vec![item(vec![text("a")]), item(vec![text("b")])] };
    let definition = Node::DefinitionList { items };
    assert_eq!(flatten_node(&ordered), Some("\na\nb\n".to_string()));
    assert_eq!(flatten_node(&definition), Some("\na\nb\n".to_string()));
}

#[test]
fn empty_list_is_two_newlines() {
    let n = Node::UnorderedList { items: vec![] };
    assert_eq!(flatten_node(&n), Some("\n\n".to_string()));
}

#[test]
fn lien_prefers_texte_parameter() {
    let params = vec![named("texte", vec![text("Paris")]), named("fr", vec![text("ignored")])];
    let r = flatten_template(&vec![text("lien")], &params);
    assert_eq!(r, Some("Paris".to_string()));
}

#[test]
fn lien_falls_back_to_fr_parameter() {
    let params = vec![named("fr", vec![text("Rome")]), unnamed(vec![text("ignored")])];
    let r = flatten_template(&vec![text("lien")], &params);
    assert_eq!(r, Some("Rome".to_string()));
}

#[test]
fn lien_falls_back_to_first_unnamed_parameter() {
    let params = vec![unnamed(vec![text("Londres")])];
    let r = flatten_template(&vec![text("lien")], &params);
    assert_eq!(r, Some("Londres".to_string()));
}

#[test]
fn lien_without_usable_parameter_emits_nothing() {
    let params = vec![named("autre", vec![text("x")])];
    let r = flatten_template(&vec![text("lien")], &params);
    assert_eq!(r, None);
}

#[test]
fn lien_name_is_matched_case_insensitively() {
    let params = vec![unnamed(vec![text("Berlin")])];
    let r = flatten_template(&vec![text("Lien")], &params);
    assert_eq!(r, Some("Berlin".to_string()));
}

#[test]
fn ordinal_template_appends_century_suffix() {
    let r = flatten_template(&vec![text("s-")], &vec![unnamed(vec![text("XIX")])]);
    assert_eq!(r, Some("XIXe siècle".to_string()));
}

#[test]
fn ordinal_template_without_parameters_emits_nothing() {
    let r = flatten_template(&vec![text("sav-")], &vec![]);
    assert_eq!(r, None);
}

#[test]
fn date_template_joins_all_parameter_values_with_spaces() {
    let params = vec![unnamed(vec![text("24")]), unnamed(vec![text("mars")]), unnamed(vec![
        text("1821"),
    ])];
    let r = flatten_template(&vec![text("date")], &params);
    assert_eq!(r, Some("24 mars 1821".to_string()));
}

#[test]
fn ouvrage_template_extracts_titre_parameter() {
    let params = vec![named("auteur", vec![text("Hugo")]), named("titre", vec![text(
        "Les Misérables",
    )])];
    let r = flatten_template(&vec![text("ouvrage")], &params);
    assert_eq!(r, Some("Les Misérables".to_string()));
}

#[test]
fn ouvrage_template_without_titre_emits_nothing() {
    let params = vec![named("auteur", vec![text("Hugo")])];
    let r = flatten_template(&vec![text("ouvrage")], &params);
    assert_eq!(r, None);
}

#[test]
fn century_reference_name_passes_through_verbatim() {
    let r = flatten_template(&vec![text("XIXe siècle")], &vec![]);
    assert_eq!(r, Some("XIXe siècle".to_string()));
}

#[test]
fn millennium_reference_name_passes_through_verbatim() {
    let r = flatten_template(&vec![text("IIe millénaire")], &vec![]);
    assert_eq!(r, Some("IIe millénaire".to_string()));
}

#[test]
fn formatnum_name_emits_the_remainder() {
    let r = flatten_template(&vec![text("formatnum:1234")], &vec![]);
    assert_eq!(r, Some("1234".to_string()));
}

#[test]
fn unknown_template_is_discarded() {
    let r = flatten_template(&vec![text("infobox")], &vec![unnamed(vec![text("x")])]);
    assert_eq!(r, None);
}

#[test]
fn template_with_empty_name_is_discarded() {
    let r = flatten_template(&vec![], &vec![]);
    assert_eq!(r, None);
}

#[test]
fn template_whose_name_starts_with_markup_is_discarded() {
    let r = flatten_template(&vec![Node::ParagraphBreak], &vec![]);
    assert_eq!(r, None);
}

#[test]
fn nested_markup_inside_template_values_is_flattened() {
    let params = vec![named("texte", vec![Node::Link { text: vec![text("Lyon")] }])];
    let r = flatten_template(&vec![text("lien")], &params);
    assert_eq!(r, Some("Lyon".to_string()));
}
