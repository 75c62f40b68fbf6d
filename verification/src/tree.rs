//! The markup node tree consumed by the flattening engine.
//!
//! A page's wiki markup is parsed upstream into a tree of typed nodes; this
//! module holds the crate's own representation of that tree: plain owned
//! values that contracts can speak about. Each child sequence is exclusively
//! owned by its parent node, so the tree is finite and cycle-free.

use vstd::prelude::*;

verus! {

/// One markup construct. Variants that the dispatcher does not recognize are
/// represented by [`Node::Other`] and contribute nothing to the output.
#[derive(Debug)]
pub enum Node {
    /// Literal text, emitted verbatim.
    Text { value: String },
    /// A paragraph boundary, emitted as a single newline.
    ParagraphBreak,
    /// An internal link; only the display text is kept.
    Link { text: Vec<Node> },
    /// An external link; the first child holds the raw "url caption" text.
    ExternalLink { nodes: Vec<Node> },
    /// An image; the children hold pipe-separated option segments, the
    /// rightmost conventionally being the caption.
    Image { text: Vec<Node> },
    /// A decoded character entity.
    CharacterEntity { character: char },
    /// A bulleted list.
    UnorderedList { items: Vec<ListItem> },
    /// A numbered list.
    OrderedList { items: Vec<ListItem> },
    /// A definition list.
    DefinitionList { items: Vec<ListItem> },
    /// A heading; suppressed from the output.
    Heading { nodes: Vec<Node> },
    /// A template invocation, resolved by name.
    Template { name: Vec<Node>, parameters: Vec<Parameter> },
    /// A redirect marker; a page starting with one yields no output.
    Redirect,
    /// Any construct the dispatcher ignores.
    Other,
}

/// One entry of an ordered, unordered or definition list.
#[derive(Debug)]
pub struct ListItem {
    pub nodes: Vec<Node>,
}

/// A template argument, optionally named.
#[derive(Debug)]
pub struct Parameter {
    pub name: Option<Vec<Node>>,
    pub value: Vec<Node>,
}

/// One page record of the dump, as handed over by the upstream record parser.
#[derive(Debug, Clone)]
pub struct Page {
    pub title: String,
    pub namespace: i64,
    pub format: Option<String>,
    pub model: Option<String>,
    pub raw_text: String,
}

} // verus!
