//! Page-level rules: the admission filter, the redirect filter, the
//! pre-parse rewrite of the ad hoc table-closing marker, and the assembly of
//! a page's final text.

use vstd::prelude::*;
use vstd::string::*;

use crate::flatten::{flat_nodes, flatten_nodes, frag_view};
use crate::normalize::{normalize, normalize_text};
use crate::strutil::{matches_at, matches_at_str, str_eq};
use crate::tree::{Node, Page};

verus! {

/// A page is admitted for flattening when its namespace is on the fixed
/// allow-list and its format and model carry the fixed wiki-markup tokens.
pub open spec fn admissible(p: Page) -> bool {
    &&& (p.namespace == 0 || p.namespace == 1 || p.namespace == 4 || p.namespace == 12)
    &&& p.format matches Some(f) && f@ == "text/x-wiki"@
    &&& p.model matches Some(m) && m@ == "wikitext"@
}

/// The admission filter of [`admissible`].
pub fn admits(p: &Page) -> (r: bool)
    ensures
        r == admissible(*p),
{
    let ns_ok = p.namespace == 0 || p.namespace == 1 || p.namespace == 4 || p.namespace == 12;
    let format_ok = match &p.format {
        Some(f) => str_eq(f.as_str(), "text/x-wiki"),
        None => false,
    };
    let model_ok = match &p.model {
        Some(m) => str_eq(m.as_str(), "wikitext"),
        None => false,
    };
    ns_ok && format_ok && model_ok
}

/// Whether a tree is a redirect page: its first top-level node is a redirect
/// marker.
pub open spec fn is_redirect_tree(ns: Seq<Node>) -> bool {
    ns.len() > 0 && ns[0] is Redirect
}

/// The text of a page's tree: none for a redirect page, otherwise the
/// flattened tree with its whitespace normalized.
pub open spec fn page_text_spec(ns: Seq<Node>) -> Option<Seq<char>> {
    if is_redirect_tree(ns) {
        None
    } else {
        Some(normalize_text(flat_nodes(ns)))
    }
}

/// Flattens a non-redirect tree into its normalized text; a redirect page
/// yields no output, which is a normal outcome, not a failure.
pub fn page_text(nodes: &Vec<Node>) -> (r: Option<String>)
    ensures
        frag_view(r) == page_text_spec(nodes@),
        is_redirect_tree(nodes@) <==> r is None,
{
    if nodes.len() > 0 {
        match &nodes[0] {
            Node::Redirect => {
                return None;
            },
            _ => {},
        }
    }
    let flat = flatten_nodes(nodes);
    Some(normalize(flat.as_str()))
}

/// The output of a whole page: nothing for a page that fails admission,
/// nothing for a redirect page, and the normalized flattened text otherwise.
pub open spec fn page_output_spec(p: Page, ns: Seq<Node>) -> Option<Seq<char>> {
    if !admissible(p) {
        None
    } else {
        page_text_spec(ns)
    }
}

/// Gate and flatten one page: a page failing the admission filter is never
/// flattened and produces no output.
pub fn page_output(p: &Page, nodes: &Vec<Node>) -> (r: Option<String>)
    ensures
        frag_view(r) == page_output_spec(*p, nodes@),
        !admissible(*p) ==> r is None,
{
    if !admits(p) {
        return None;
    }
    page_text(nodes)
}

/// The raw text of a page with each occurrence of the pseudo-template
/// `{{fin}}` rewritten, left to right, to the table-closing code `|}`, from
/// position `i` on. The marker is a community convention the markup parser
/// would otherwise reject.
pub open spec fn fin_rewritten_from(s: Seq<char>, i: int) -> Seq<char>
    decreases s.len() - i,
{
    if i < 0 || i >= s.len() {
        Seq::empty()
    } else if matches_at(s, "{{fin}}"@, i) {
        proof {
            reveal_strlit("{{fin}}");
        }
        "|}"@ + fin_rewritten_from(s, i + "{{fin}}"@.len() as int)
    } else {
        seq![s[i]] + fin_rewritten_from(s, i + 1)
    }
}

/// The fully rewritten raw text.
pub open spec fn fin_rewritten(s: Seq<char>) -> Seq<char> {
    fin_rewritten_from(s, 0)
}

/// Rewrites every `{{fin}}` of a page's raw text to `|}` before the text is
/// handed to the markup parser.
pub fn rewrite_fin(s: &str) -> (r: String)
    ensures
        r@ == fin_rewritten(s@),
{
    rewrite_fin_from(s, 0)
}

/// The rewrite of [`fin_rewritten_from`] from position `i` on.
fn rewrite_fin_from(s: &str, i: usize) -> (r: String)
    ensures
        r@ == fin_rewritten_from(s@, i as int),
    decreases s@.len() - i,
{
    let len = s.unicode_len();
    if i >= len {
        return String::new();
    }
    if matches_at_str(s, "{{fin}}", i) {
        proof {
            reveal_strlit("{{fin}}");
        }
        let step = "{{fin}}".unicode_len();
        let rest = rewrite_fin_from(s, i + step);
        String::from_str("|}").concat(rest.as_str())
    } else {
        let piece = s.substring_char(i, i + 1);
        proof {
            assert(piece@ =~= seq![s@[i as int]]);
        }
        let rest = rewrite_fin_from(s, i + 1);
        String::from_str(piece).concat(rest.as_str())
    }
}

} // verus!
