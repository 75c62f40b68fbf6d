//! The tree-to-text flattening engine: a recursive dispatcher that turns a
//! markup node tree into linear text.
//!
//! Each node's contribution is a pure function of its own fields and of the
//! contributions of its direct children: either "no contribution" (the node
//! is skipped entirely) or a text fragment. A sequence of nodes contributes
//! the concatenation, in sibling order, of the fragments of its contributing
//! members; that index-ordered join is what every contract below pins down,
//! so any evaluation order over disjoint subtrees must produce the same text.
//!
//! Structural expectations the upstream parser usually meets (an external
//! link or template whose first child is a literal text node) are degraded
//! gracefully when violated: the offending node contributes nothing rather
//! than aborting the page.

use vstd::prelude::*;
use vstd::string::*;

use crate::foreign::{lower_of, lowercase, push_char};
use crate::strutil::{
    after_first_space, after_last_pipe, contains_seq, contains_str, split_after_first_space,
    split_after_last_pipe, starts_with_seq, starts_with_str, str_eq,
};
use crate::tree::{ListItem, Node, Parameter};

verus! {

/// The view of an optional text fragment.
pub open spec fn frag_view(r: Option<String>) -> Option<Seq<char>> {
    match r {
        Some(s) => Some(s@),
        None => None,
    }
}

/// The contribution of one node: `None` for nodes that are skipped entirely,
/// `Some` text (possibly empty) for nodes that contribute.
pub open spec fn flat_node(n: Node) -> Option<Seq<char>>
    decreases n, 0int,
{
    match n {
        Node::Text { value } => Some(value@),
        Node::ParagraphBreak => Some("\n"@),
        Node::Link { text } => Some(flat_nodes_from(text@, 0)),
        Node::ExternalLink { nodes } => ext_link_text(nodes@),
        Node::Image { text } => image_text(text@),
        Node::CharacterEntity { character } => Some(Seq::empty().push(character)),
        Node::UnorderedList { items } => Some(list_text(items@)),
        Node::OrderedList { items } => Some(list_text(items@)),
        Node::DefinitionList { items } => Some(list_text(items@)),
        Node::Heading { .. } => None,
        Node::Template { name, parameters } => match template_raw(name@) {
            Some(raw) => template_text(raw, parameters@),
            None => None,
        },
        Node::Redirect => None,
        Node::Other => None,
    }
}

/// The concatenation, in sibling order, of the contributions of the nodes of
/// `ns` from position `i` on.
pub open spec fn flat_nodes_from(ns: Seq<Node>, i: int) -> Seq<char>
    decreases ns, ns.len() - i,
{
    if i < 0 || i >= ns.len() {
        Seq::empty()
    } else {
        match flat_node(ns[i]) {
            Some(s) => s + flat_nodes_from(ns, i + 1),
            None => flat_nodes_from(ns, i + 1),
        }
    }
}

/// The flattened text of a whole node sequence.
pub open spec fn flat_nodes(ns: Seq<Node>) -> Seq<char> {
    flat_nodes_from(ns, 0)
}

/// External links: the first child holds the raw `url[ caption]` text; the
/// caption is what follows the first space, and any further siblings hold
/// nested caption markup. A first child that is not literal text violates
/// the upstream structural contract; the node then contributes nothing.
pub open spec fn ext_link_text(nodes: Seq<Node>) -> Option<Seq<char>>
    decreases nodes, nodes.len() + 1,
{
    if nodes.len() == 0 {
        None
    } else {
        match nodes[0] {
            Node::Text { value } => Some(after_first_space(value@) + flat_nodes_from(nodes, 1)),
            _ => None,
        }
    }
}

/// Images: when the first child is literal text, its rightmost
/// pipe-separated segment is the caption, followed by the remaining
/// children's contribution and a closing newline; otherwise all children are
/// flattened directly.
pub open spec fn image_text(nodes: Seq<Node>) -> Option<Seq<char>>
    decreases nodes, nodes.len() + 1,
{
    if nodes.len() == 0 {
        Some(flat_nodes_from(nodes, 0))
    } else {
        match nodes[0] {
            Node::Text { value } => Some(
                after_last_pipe(value@) + flat_nodes_from(nodes, 1) + "\n"@,
            ),
            _ => Some(flat_nodes_from(nodes, 0)),
        }
    }
}

/// The per-item fragments of a list, joined with single newlines, in item
/// order, from position `i` on.
pub open spec fn items_joined(items: Seq<ListItem>, i: int) -> Seq<char>
    decreases items, items.len() - i,
{
    if i < 0 || i >= items.len() {
        Seq::empty()
    } else if i == items.len() - 1 {
        flat_nodes_from(items[i].nodes@, 0)
    } else {
        flat_nodes_from(items[i].nodes@, 0) + "\n"@ + items_joined(items, i + 1)
    }
}

/// A list block: the joined items wrapped in a leading and a trailing
/// newline. List markers carry no text; items are line-separated content.
pub open spec fn list_text(items: Seq<ListItem>) -> Seq<char>
    decreases items, items.len() + 1,
{
    "\n"@ + items_joined(items, 0) + "\n"@
}

/// The raw name of a template: the value of the first name node, when the
/// name is non-empty and starts with literal text.
pub open spec fn template_raw(name: Seq<Node>) -> Option<Seq<char>> {
    if name.len() == 0 {
        None
    } else {
        match name[0] {
            Node::Text { value } => Some(value@),
            _ => None,
        }
    }
}

/// Template names whose parameters are all flattened and joined with single
/// spaces.
pub open spec fn is_join_all_name(lower: Seq<char>) -> bool {
    ||| lower == "date"@
    ||| lower == "date-"@
    ||| lower == "date de naissance"@
    ||| lower == "date de décès"@
    ||| lower == "unité"@
    ||| lower == "nombre"@
    ||| lower == "nobr"@
}

/// Template names resolved to their first parameter followed by the ordinal
/// century suffix.
pub open spec fn is_ordinal_name(lower: Seq<char>) -> bool {
    lower == "s-"@ || lower == "sav-"@
}

/// Template names resolved to the value of their parameter named "titre".
pub open spec fn is_titled_name(lower: Seq<char>) -> bool {
    lower == "article"@ || lower == "chapitre"@ || lower == "ouvrage"@
}

/// The flattened values of the parameters from position `i` on, joined with
/// single spaces.
pub open spec fn join_values(params: Seq<Parameter>, i: int) -> Seq<char>
    decreases params, params.len() - i,
{
    if i < 0 || i >= params.len() {
        Seq::empty()
    } else if i == params.len() - 1 {
        flat_nodes_from(params[i].value@, 0)
    } else {
        flat_nodes_from(params[i].value@, 0) + " "@ + join_values(params, i + 1)
    }
}

/// The flattened value of the first parameter whose flattened name equals
/// `key`, if any.
pub open spec fn named_value(params: Seq<Parameter>, key: Seq<char>, i: int) -> Option<Seq<char>>
    decreases params, params.len() - i,
{
    if i < 0 || i >= params.len() {
        None
    } else {
        match params[i].name {
            Some(nm) => if flat_nodes_from(nm@, 0) == key {
                Some(flat_nodes_from(params[i].value@, 0))
            } else {
                named_value(params, key, i + 1)
            },
            None => named_value(params, key, i + 1),
        }
    }
}

/// The flattened value of the first unnamed parameter, if any.
pub open spec fn first_unnamed_value(params: Seq<Parameter>, i: int) -> Option<Seq<char>>
    decreases params, params.len() - i,
{
    if i < 0 || i >= params.len() {
        None
    } else if params[i].name is None {
        Some(flat_nodes_from(params[i].value@, 0))
    } else {
        first_unnamed_value(params, i + 1)
    }
}

/// The flattened value of the first parameter whose name's first node is the
/// literal text "titre", if any.
pub open spec fn titled_value(params: Seq<Parameter>, i: int) -> Option<Seq<char>>
    decreases params, params.len() - i,
{
    if i < 0 || i >= params.len() {
        None
    } else {
        match params[i].name {
            Some(nm) => if nm@.len() > 0 && (nm@[0] matches Node::Text { value }
                && value@ == "titre"@) {
                Some(flat_nodes_from(params[i].value@, 0))
            } else {
                titled_value(params, i + 1)
            },
            None => titled_value(params, i + 1),
        }
    }
}

/// The interwiki-link template: prefer the parameter named "texte", then the
/// one named "fr", then the first unnamed parameter; otherwise nothing.
pub open spec fn lien_text(params: Seq<Parameter>) -> Option<Seq<char>>
    decreases params, params.len() + 1,
{
    match named_value(params, "texte"@, 0) {
        Some(v) => Some(v),
        None => match named_value(params, "fr"@, 0) {
            Some(v) => Some(v),
            None => first_unnamed_value(params, 0),
        },
    }
}

/// The extraction rule a template resolves to. New template knowledge is
/// added by extending the lookup of [`rule_of`] and, when a new behavior is
/// needed, this set of rules — not by branching inside the dispatcher.
pub enum TemplateRule {
    /// Flatten every parameter's value and join with single spaces.
    JoinAll,
    /// Prefer the parameter named "texte", then "fr", then the first
    /// unnamed parameter.
    NamedFallbackChain,
    /// The first parameter's value followed by the ordinal century suffix.
    OrdinalSuffix,
    /// The value of the parameter named "titre".
    NamedFieldExtract,
    /// The raw template name itself, written as a century or millennium
    /// reference.
    PassThroughName,
    /// The remainder of the raw name after the "formatnum:" prefix.
    FormatNumber,
    /// No contribution.
    Discard,
}

/// The resolution table: the lower-cased raw name selects the rule; unknown
/// names fall back to century/millennium pass-through on the raw name, then
/// to the "formatnum:" prefix rule, then to silent discard.
pub open spec fn rule_of(lower: Seq<char>, raw: Seq<char>) -> TemplateRule {
    if is_join_all_name(lower) {
        TemplateRule::JoinAll
    } else if lower == "lien"@ {
        TemplateRule::NamedFallbackChain
    } else if is_ordinal_name(lower) {
        TemplateRule::OrdinalSuffix
    } else if is_titled_name(lower) {
        TemplateRule::NamedFieldExtract
    } else if contains_seq(raw, "siècle"@) || contains_seq(raw, "millénaire"@) {
        TemplateRule::PassThroughName
    } else if starts_with_seq(raw, "formatnum:"@) {
        TemplateRule::FormatNumber
    } else {
        TemplateRule::Discard
    }
}

/// The contribution of a template with raw name `raw`: the rule selected by
/// the lower-cased name, applied to the parameters.
pub open spec fn template_text(raw: Seq<char>, params: Seq<Parameter>) -> Option<Seq<char>>
    decreases params, params.len() + 2,
{
    match rule_of(lower_of(raw), raw) {
        TemplateRule::JoinAll => Some(join_values(params, 0)),
        TemplateRule::NamedFallbackChain => lien_text(params),
        TemplateRule::OrdinalSuffix => if params.len() > 0 {
            Some(flat_nodes_from(params[0].value@, 0) + "e siècle"@)
        } else {
            None
        },
        TemplateRule::NamedFieldExtract => titled_value(params, 0),
        TemplateRule::PassThroughName => Some(raw),
        TemplateRule::FormatNumber => Some(
            raw.subrange("formatnum:"@.len() as int, raw.len() as int),
        ),
        TemplateRule::Discard => None,
    }
}

/// Looks a template name up in the resolution table of [`rule_of`], given
/// its lower-cased and raw forms.
pub fn classify_template(lower: &str, raw: &str) -> (r: TemplateRule)
    ensures
        r == rule_of(lower@, raw@),
{
    if str_eq(lower, "date") || str_eq(lower, "date-") || str_eq(lower, "date de naissance")
        || str_eq(lower, "date de décès") || str_eq(lower, "unité") || str_eq(lower, "nombre")
        || str_eq(lower, "nobr") {
        TemplateRule::JoinAll
    } else if str_eq(lower, "lien") {
        TemplateRule::NamedFallbackChain
    } else if str_eq(lower, "s-") || str_eq(lower, "sav-") {
        TemplateRule::OrdinalSuffix
    } else if str_eq(lower, "article") || str_eq(lower, "chapitre") || str_eq(lower, "ouvrage") {
        TemplateRule::NamedFieldExtract
    } else if contains_str(raw, "siècle") || contains_str(raw, "millénaire") {
        TemplateRule::PassThroughName
    } else if starts_with_str(raw, "formatnum:") {
        TemplateRule::FormatNumber
    } else {
        TemplateRule::Discard
    }
}

/// Flattens one node into its optional text fragment.
pub fn flatten_node(n: &Node) -> (r: Option<String>)
    ensures
        frag_view(r) == flat_node(*n),
    decreases n, 0int,
{
    match n {
        Node::Text { value } => Some(value.clone()),
        Node::ParagraphBreak => Some(String::from_str("\n")),
        Node::Link { text } => Some(flatten_nodes_from(text, 0)),
        Node::ExternalLink { nodes } => external_link_fragment(nodes),
        Node::Image { text } => image_fragment(text),
        Node::CharacterEntity { character } => {
            let mut s = String::new();
            push_char(&mut s, *character);
            Some(s)
        },
        Node::UnorderedList { items } => Some(list_fragment(items)),
        Node::OrderedList { items } => Some(list_fragment(items)),
        Node::DefinitionList { items } => Some(list_fragment(items)),
        Node::Heading { .. } => None,
        Node::Template { name, parameters } => flatten_template(name, parameters),
        Node::Redirect => None,
        Node::Other => None,
    }
}

/// Flattens the nodes of `ns` from position `i` on, concatenating the
/// contributing fragments in sibling order.
pub fn flatten_nodes_from(ns: &Vec<Node>, i: usize) -> (r: String)
    ensures
        r@ == flat_nodes_from(ns@, i as int),
    decreases ns@, ns@.len() - i,
{
    if i >= ns.len() {
        String::new()
    } else {
        let head = flatten_node(&ns[i]);
        let rest = flatten_nodes_from(ns, i + 1);
        match head {
            Some(s) => s.concat(rest.as_str()),
            None => rest,
        }
    }
}

/// Flattens a whole node sequence.
pub fn flatten_nodes(ns: &Vec<Node>) -> (r: String)
    ensures
        r@ == flat_nodes(ns@),
{
    flatten_nodes_from(ns, 0)
}

/// The external-link rule of [`ext_link_text`].
fn external_link_fragment(nodes: &Vec<Node>) -> (r: Option<String>)
    ensures
        frag_view(r) == ext_link_text(nodes@),
    decreases nodes@, nodes@.len() + 1,
{
    if nodes.len() == 0 {
        return None;
    }
    match &nodes[0] {
        Node::Text { value } => {
            let caption = split_after_first_space(value.as_str());
            let rest = flatten_nodes_from(nodes, 1);
            Some(caption.concat(rest.as_str()))
        },
        _ => None,
    }
}

/// The image-caption rule of [`image_text`].
fn image_fragment(nodes: &Vec<Node>) -> (r: Option<String>)
    ensures
        frag_view(r) == image_text(nodes@),
    decreases nodes@, nodes@.len() + 1,
{
    if nodes.len() == 0 {
        return Some(flatten_nodes_from(nodes, 0));
    }
    match &nodes[0] {
        Node::Text { value } => {
            let caption = split_after_last_pipe(value.as_str());
            let rest = flatten_nodes_from(nodes, 1);
            Some(caption.concat(rest.as_str()).concat("\n"))
        },
        _ => Some(flatten_nodes_from(nodes, 0)),
    }
}

/// The per-item join of [`items_joined`].
fn items_joined_fragment(items: &Vec<ListItem>, i: usize) -> (r: String)
    ensures
        r@ == items_joined(items@, i as int),
    decreases items@, items@.len() - i,
{
    if i >= items.len() {
        String::new()
    } else {
        let cur = flatten_nodes_from(&items[i].nodes, 0);
        if i + 1 == items.len() {
            cur
        } else {
            let rest = items_joined_fragment(items, i + 1);
            cur.concat("\n").concat(rest.as_str())
        }
    }
}

/// The list rule of [`list_text`].
pub fn list_fragment(items: &Vec<ListItem>) -> (r: String)
    ensures
        r@ == list_text(items@),
    decreases items@, items@.len() + 1,
{
    let joined = items_joined_fragment(items, 0);
    String::from_str("\n").concat(joined.as_str()).concat("\n")
}

/// The template rule of [`flat_node`]: resolve the raw name, when there is
/// one, through the resolution table.
pub fn flatten_template(name: &Vec<Node>, parameters: &Vec<Parameter>) -> (r: Option<String>)
    ensures
        frag_view(r) == (match template_raw(name@) {
            Some(raw) => template_text(raw, parameters@),
            None => None::<Seq<char>>,
        }),
    decreases parameters@, parameters@.len() + 3,
{
    if name.len() == 0 {
        return None;
    }
    match &name[0] {
        Node::Text { value } => {
            let lowered = lowercase(value.as_str());
            resolve_template(lowered.as_str(), value.as_str(), parameters)
        },
        _ => None,
    }
}

/// Applies the resolution table of [`template_text`] to a raw template name
/// and its lower-cased form.
fn resolve_template(lower: &str, raw: &str, params: &Vec<Parameter>) -> (r: Option<String>)
    requires
        lower@ == lower_of(raw@),
    ensures
        frag_view(r) == template_text(raw@, params@),
    decreases params@, params@.len() + 2,
{
    match classify_template(lower, raw) {
        TemplateRule::JoinAll => Some(join_values_fragment(params, 0)),
        TemplateRule::NamedFallbackChain => lien_fragment(params),
        TemplateRule::OrdinalSuffix => {
            if params.len() > 0 {
                Some(flatten_nodes_from(&params[0].value, 0).concat("e siècle"))
            } else {
                None
            }
        },
        TemplateRule::NamedFieldExtract => titled_fragment(params, 0),
        TemplateRule::PassThroughName => Some(String::from_str(raw)),
        TemplateRule::FormatNumber => {
            let plen = "formatnum:".unicode_len();
            Some(String::from_str(raw.substring_char(plen, raw.unicode_len())))
        },
        TemplateRule::Discard => None,
    }
}

/// The space-separated join of [`join_values`].
fn join_values_fragment(params: &Vec<Parameter>, i: usize) -> (r: String)
    ensures
        r@ == join_values(params@, i as int),
    decreases params@, params@.len() - i,
{
    if i >= params.len() {
        String::new()
    } else {
        let cur = flatten_nodes_from(&params[i].value, 0);
        if i + 1 == params.len() {
            cur
        } else {
            let rest = join_values_fragment(params, i + 1);
            cur.concat(" ").concat(rest.as_str())
        }
    }
}

/// The named-parameter lookup of [`named_value`].
fn named_value_fragment(params: &Vec<Parameter>, key: &str, i: usize) -> (r: Option<String>)
    ensures
        frag_view(r) == named_value(params@, key@, i as int),
    decreases params@, params@.len() - i,
{
    if i >= params.len() {
        return None;
    }
    match &params[i].name {
        Some(nm) => {
            let flat_name = flatten_nodes_from(nm, 0);
            if str_eq(flat_name.as_str(), key) {
                Some(flatten_nodes_from(&params[i].value, 0))
            } else {
                named_value_fragment(params, key, i + 1)
            }
        },
        None => named_value_fragment(params, key, i + 1),
    }
}

/// The unnamed-parameter lookup of [`first_unnamed_value`].
fn first_unnamed_fragment(params: &Vec<Parameter>, i: usize) -> (r: Option<String>)
    ensures
        frag_view(r) == first_unnamed_value(params@, i as int),
    decreases params@, params@.len() - i,
{
    if i >= params.len() {
        return None;
    }
    match &params[i].name {
        Some(_) => first_unnamed_fragment(params, i + 1),
        None => Some(flatten_nodes_from(&params[i].value, 0)),
    }
}

/// The "titre"-parameter lookup of [`titled_value`].
fn titled_fragment(params: &Vec<Parameter>, i: usize) -> (r: Option<String>)
    ensures
        frag_view(r) == titled_value(params@, i as int),
    decreases params@, params@.len() - i,
{
    if i >= params.len() {
        return None;
    }
    match &params[i].name {
        Some(nm) => {
            if nm.len() > 0 {
                match &nm[0] {
                    Node::Text { value } => {
                        if str_eq(value.as_str(), "titre") {
                            return Some(flatten_nodes_from(&params[i].value, 0));
                        }
                    },
                    _ => {},
                }
            }
            titled_fragment(params, i + 1)
        },
        None => titled_fragment(params, i + 1),
    }
}

/// A node sequence holding only literal text and paragraph breaks.
pub open spec fn all_text_or_break(ns: Seq<Node>) -> bool {
    forall|j: int| 0 <= j < ns.len() ==> (#[trigger] ns[j] is Text || ns[j] is ParagraphBreak)
}

/// The in-order concatenation of the literal values and newlines of a
/// sequence of text and paragraph-break nodes, from position `i` on.
pub open spec fn literal_concat_from(ns: Seq<Node>, i: int) -> Seq<char>
    decreases ns.len() - i,
{
    if i < 0 || i >= ns.len() {
        Seq::empty()
    } else {
        (match ns[i] {
            Node::Text { value } => value@,
            Node::ParagraphBreak => "\n"@,
            _ => Seq::empty(),
        }) + literal_concat_from(ns, i + 1)
    }
}

proof fn lemma_flatten_literals_from(ns: Seq<Node>, i: int)
    requires
        all_text_or_break(ns),
        0 <= i,
    ensures
        flat_nodes_from(ns, i) == literal_concat_from(ns, i),
    decreases ns.len() - i,
{
    if i < ns.len() {
        lemma_flatten_literals_from(ns, i + 1);
        assert(ns[i] is Text || ns[i] is ParagraphBreak);
        match ns[i] {
            Node::Text { value } => {
                assert(flat_node(ns[i]) == Some::<Seq<char>>(value@));
            },
            Node::ParagraphBreak => {
                assert(flat_node(ns[i]) == Some::<Seq<char>>("\n"@));
            },
            _ => {},
        }
    }
}

/// Law: flattening a sequence holding only literal text and paragraph
/// breaks yields exactly the concatenation of their values and newlines, in
/// sibling order.
pub proof fn lemma_flatten_literals(ns: Seq<Node>)
    requires
        all_text_or_break(ns),
    ensures
        flat_nodes(ns) == literal_concat_from(ns, 0),
{
    lemma_flatten_literals_from(ns, 0);
}

/// The fragments contributed by the items of a list, each computed from its
/// own subtree alone, in item order.
pub open spec fn item_fragments(items: Seq<ListItem>) -> Seq<Seq<char>> {
    Seq::new(items.len(), |j: int| flat_nodes(items[j].nodes@))
}

/// Ready-made parts joined with single newlines, in index order, from
/// position `i` on.
pub open spec fn joined_with_newlines(parts: Seq<Seq<char>>, i: int) -> Seq<char>
    decreases parts.len() - i,
{
    if i < 0 || i >= parts.len() {
        Seq::empty()
    } else if i == parts.len() - 1 {
        parts[i]
    } else {
        parts[i] + "\n"@ + joined_with_newlines(parts, i + 1)
    }
}

proof fn lemma_items_joined_in_order(items: Seq<ListItem>, i: int)
    requires
        0 <= i,
    ensures
        items_joined(items, i) == joined_with_newlines(item_fragments(items), i),
    decreases items.len() - i,
{
    if i < items.len() {
        lemma_items_joined_in_order(items, i + 1);
    }
}

/// Law: a list block is fully determined by the fragments of its items,
/// each a pure function of its own subtree, joined by newlines in item
/// order and wrapped in a leading and a trailing newline — so any
/// evaluation of the items that joins the results by item index yields this
/// same text, whatever order the items were evaluated in.
pub proof fn lemma_list_order(items: Seq<ListItem>)
    ensures
        list_text(items) == "\n"@ + joined_with_newlines(item_fragments(items), 0) + "\n"@,
{
    lemma_items_joined_in_order(items, 0);
}

/// The fallback chain of [`lien_text`].
fn lien_fragment(params: &Vec<Parameter>) -> (r: Option<String>)
    ensures
        frag_view(r) == lien_text(params@),
    decreases params@, params@.len() + 1,
{
    match named_value_fragment(params, "texte", 0) {
        Some(v) => Some(v),
        None => match named_value_fragment(params, "fr", 0) {
            Some(v) => Some(v),
            None => first_unnamed_fragment(params, 0),
        },
    }
}

} // verus!
