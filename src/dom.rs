//! Reading parsed pages: the first node that a selector matches, flattened
//! into one text entry per child, and the links of a page.

use vstd::prelude::*;
use scraper::{Html, Selector};
use crate::text::{trim_text, trimmed};

verus! {

/// scraper's parsed document, carried through opaque.
#[verifier::external_type_specification]
#[verifier::external_body]
pub struct ExHtml(Html);

/// scraper's compiled CSS selector, carried through opaque.
#[verifier::external_type_specification]
#[verifier::external_body]
pub struct ExSelector(Selector);

/// What the extractor reads of one node of a parsed page.
pub enum DomNode {
    Text(String),
    Element,
    Other,
}

/// A direct child of the matched node, with all nodes of its subtree in
/// document order (itself first).
pub struct DomChild {
    pub node: DomNode,
    pub descendants: Vec<DomNode>,
}

/// The trimmed text of a text node; nothing for any other node.
pub open spec fn piece(n: DomNode) -> Seq<char> {
    match n {
        DomNode::Text(s) => trimmed(s@),
        _ => Seq::empty(),
    }
}

/// The trimmed texts of the nodes, concatenated in order.
pub open spec fn pieces(ns: Seq<DomNode>) -> Seq<char>
    decreases ns.len(),
{
    if ns.len() == 0 {
        Seq::empty()
    } else {
        pieces(ns.drop_last()) + piece(ns.last())
    }
}

/// The text that a child contributes (empty ones are dropped).
pub open spec fn child_text(c: DomChild) -> Seq<char> {
    match c.node {
        DomNode::Text(s) => trimmed(s@),
        DomNode::Element => pieces(c.descendants@),
        DomNode::Other => Seq::empty(),
    }
}

/// One entry per child whose text is not empty, in document order.
pub open spec fn entries(cs: Seq<DomChild>) -> Seq<Seq<char>>
    decreases cs.len(),
{
    if cs.len() == 0 {
        Seq::empty()
    } else if child_text(cs.last()).len() > 0 {
        entries(cs.drop_last()).push(child_text(cs.last()))
    } else {
        entries(cs.drop_last())
    }
}

/// The entries of the matched node's children; none when nothing matched.
pub open spec fn node_entries(matched: Option<Seq<DomChild>>) -> Seq<Seq<char>> {
    match matched {
        Some(cs) => entries(cs),
        None => Seq::empty(),
    }
}

/// The children as a sequence.
pub open spec fn children_view(matched: Option<Vec<DomChild>>) -> Option<Seq<DomChild>> {
    match matched {
        Some(cs) => Some(cs@),
        None => None,
    }
}

/// The children (each with its subtree) of the first node of `page` that
/// `selector` matches, as scraper finds it; `None` when nothing matches.
pub uninterp spec fn matched_children(page: Html, selector: Selector) -> Option<Seq<DomChild>>;

/// For each node of `page` that `selector` matches, in the order in which
/// scraper's `Html::select` walks the tree, its `href` attribute if it has one.
pub uninterp spec fn page_hrefs(page: Html, selector: Selector) -> Seq<Option<String>>;

/// Relies on scraper's `Html::select` and ego-tree's `children` and
/// `descendants`: the children of the first node that `selector` matches,
/// each with its subtree; `None` when nothing matches. The result depends on
/// the page and the selector alone.
#[verifier::external_body]
fn first_match_children(page: &Html, selector: &Selector) -> (r: Option<Vec<DomChild>>)
    ensures
        children_view(r) == matched_children(*page, *selector),
{
    let kind = |n: &scraper::Node| match n {
        scraper::Node::Text(t) => DomNode::Text(t.to_string()),
        scraper::Node::Element(_) => DomNode::Element,
        _ => DomNode::Other,
    };
    page.select(selector).next().map(|m| {
        m.children()
            .map(|c| DomChild {
                node: kind(c.value()),
                descendants: c.descendants().map(|d| kind(d.value())).collect(),
            })
            .collect()
    })
}

/// Relies on scraper's `Html::select` and `Element::attr`: for each node that
/// `selector` matches, in the order in which `select` walks the tree, its
/// `href` attribute if it has one. The result depends on the page and the
/// selector alone.
#[verifier::external_body]
pub(crate) fn anchor_hrefs(page: &Html, selector: &Selector) -> (r: Vec<Option<String>>)
    ensures
        r@ == page_hrefs(*page, *selector),
{
    page.select(selector).map(|a| a.value().attr("href").map(|h| h.to_string())).collect()
}

/// The trimmed texts of the nodes, concatenated.
fn concat_pieces(ns: &Vec<DomNode>) -> (r: String)
    ensures
        r@ == pieces(ns@),
{
    let mut r = String::new();
    let mut i: usize = 0;
    while i < ns.len()
        invariant
            i <= ns.len(),
            r@ == pieces(ns@.take(i as int)),
        decreases ns.len() - i,
    {
        assert(ns@.take(i + 1).drop_last() =~= ns@.take(i as int));
        match &ns[i] {
            DomNode::Text(s) => {
                let t = trim_text(s.as_str());
                r.append(t.as_str());
            },
            _ => {},
        }
        assert(r@ =~= pieces(ns@.take(i + 1)));
        i = i + 1;
    }
    assert(ns@.take(ns.len() as int) =~= ns@);
    r
}

/// The text that one child contributes.
fn child_content(c: &DomChild) -> (r: String)
    ensures
        r@ == child_text(*c),
{
    match &c.node {
        DomNode::Text(s) => trim_text(s.as_str()),
        DomNode::Element => concat_pieces(&c.descendants),
        DomNode::Other => String::new(),
    }
}

/// Flattens the matched node's children: a text child gives its trimmed text,
/// an element child the trimmed texts of its subtree joined without a
/// separator; empty results are skipped. Nothing matched gives no entries.
pub fn node_content(matched: Option<Vec<DomChild>>) -> (r: Vec<String>)
    ensures
        r.deep_view() == node_entries(children_view(matched)),
        matched is None ==> r.len() == 0,
{
    let mut r: Vec<String> = Vec::new();
    match matched {
        None => {
            assert(r.deep_view() =~= Seq::<Seq<char>>::empty());
        },
        Some(cs) => {
            let mut i: usize = 0;
            while i < cs.len()
                invariant
                    i <= cs.len(),
                    r.deep_view() == entries(cs@.take(i as int)),
                decreases cs.len() - i,
            {
                assert(cs@.take(i + 1).drop_last() =~= cs@.take(i as int));
                let t = child_content(&cs[i]);
                if t.unicode_len() > 0 {
                    r.push(t);
                }
                assert(r.deep_view() =~= entries(cs@.take(i + 1)));
                i = i + 1;
            }
            assert(cs@.take(cs.len() as int) =~= cs@);
        },
    }
    r
}

/// The entries of the first node of `sub_page` that `selector` matches (see
/// [`node_content`]); an empty list when nothing matches. Always `Some`.
pub fn get_node_content(sub_page: Html, selector: &Selector) -> (r: Option<Vec<String>>)
    ensures
        r matches Some(v) && v.deep_view() == node_entries(matched_children(sub_page, *selector)),
{
    let matched = first_match_children(&sub_page, selector);
    let v = node_content(matched);
    Some(v)
}

} // verus!
