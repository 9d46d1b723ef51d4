use vstd::prelude::*;

verus! {

/// One step of a document-order walk over a parsed markup fragment: every
/// node is entered once and left once, children in between.
#[derive(Debug)]
pub enum MarkupEdge {
    /// A text node is entered; it holds its literal text.
    Text(String),
    /// An element is entered; it holds the element's class names.
    Open(Vec<String>),
    /// An element is left; it holds the element's class names.
    Close(Vec<String>),
    /// Any other step: leaving a text node, or a comment, doctype or root.
    Other,
}

/// The walk that the markup parser produces for a fragment.
pub uninterp spec fn fragment_edges(fragment: Seq<char>) -> Seq<MarkupEdge>;

/// The class that marks a relevance match.
pub open spec fn highlight_class() -> Seq<char> {
    "highlight"@
}

/// The marker written at both ends of a highlighted element.
pub open spec fn bold_marker() -> Seq<char> {
    "**"@
}

pub open spec fn is_highlighted(classes: Seq<String>) -> bool {
    exists|i: int| 0 <= i < classes.len() && #[trigger] classes[i]@ == highlight_class()
}

/// What one step of the walk contributes to the plain text.
pub open spec fn edge_text(edge: MarkupEdge) -> Seq<char> {
    match edge {
        MarkupEdge::Text(t) => t@,
        MarkupEdge::Open(c) => if is_highlighted(c@) { bold_marker() } else { Seq::empty() },
        MarkupEdge::Close(c) => if is_highlighted(c@) { bold_marker() } else { Seq::empty() },
        MarkupEdge::Other => Seq::empty(),
    }
}

/// The plain text of a walk: the contributions of its steps, in order.
pub open spec fn rendered(edges: Seq<MarkupEdge>) -> Seq<char>
    decreases edges.len(),
{
    if edges.len() == 0 {
        Seq::empty()
    } else {
        rendered(edges.drop_last()) + edge_text(edges.last())
    }
}

/// The literal text of a walk, with every element ignored.
pub open spec fn text_only(edges: Seq<MarkupEdge>) -> Seq<char>
    decreases edges.len(),
{
    if edges.len() == 0 {
        Seq::empty()
    } else {
        text_only(edges.drop_last()) + match edges.last() {
            MarkupEdge::Text(t) => t@,
            _ => Seq::empty(),
        }
    }
}

pub open spec fn marks_highlight(edge: MarkupEdge) -> bool {
    match edge {
        MarkupEdge::Open(c) => is_highlighted(c@),
        MarkupEdge::Close(c) => is_highlighted(c@),
        _ => false,
    }
}

/// Rendering is compositional: the text of two consecutive parts of a walk
/// is the text of the first followed by the text of the second. In
/// particular sibling highlighted spans each keep their own pair of markers.
pub proof fn lemma_rendered_concat(a: Seq<MarkupEdge>, b: Seq<MarkupEdge>)
    ensures
        rendered(a + b) == rendered(a) + rendered(b),
    decreases b.len(),
{
    if b.len() == 0 {
        assert(a + b =~= a);
        assert(rendered(b) =~= Seq::<char>::empty());
        assert(rendered(a) + rendered(b) =~= rendered(a));
    } else {
        assert((a + b).drop_last() =~= a + b.drop_last());
        assert((a + b).last() == b.last());
        lemma_rendered_concat(a, b.drop_last());
        assert(rendered(a) + rendered(b.drop_last()) + edge_text(b.last()) =~= rendered(a) + (
        rendered(b.drop_last()) + edge_text(b.last())));
    }
}

/// A highlighted element whose only content is the text `t` appears in the
/// output as `**t**`, with the markers right around the text and no markup.
pub proof fn lemma_highlighted_span(edges: Seq<MarkupEdge>, i: int, t: String)
    requires
        0 <= i,
        i + 2 < edges.len(),
        edges[i] is Open && is_highlighted(edges[i]->Open_0@),
        edges[i + 1] == MarkupEdge::Text(t),
        edges[i + 2] is Close && is_highlighted(edges[i + 2]->Close_0@),
    ensures
        exists|k: int|
            0 <= k && k + t@.len() + 4 <= rendered(edges).len() && #[trigger] rendered(
                edges,
            ).subrange(k, k + t@.len() + 4) == bold_marker() + t@ + bold_marker(),
{
    let pre = edges.subrange(0, i);
    let mid = edges.subrange(i, i + 3);
    let post = edges.subrange(i + 3, edges.len() as int);
    assert(edges =~= pre + mid + post);
    lemma_rendered_concat(pre + mid, post);
    lemma_rendered_concat(pre, mid);
    let m1 = mid.drop_last();
    let m2 = m1.drop_last();
    assert(m2.drop_last() =~= Seq::<MarkupEdge>::empty());
    assert(m2.last() == edges[i] && m1.last() == edges[i + 1] && mid.last() == edges[i + 2]);
    assert(rendered(m2.drop_last()) =~= Seq::<char>::empty());
    assert(edge_text(m2.last()) == bold_marker());
    assert(rendered(m2) =~= bold_marker());
    assert(rendered(m1) =~= bold_marker() + t@);
    assert(rendered(mid) =~= bold_marker() + t@ + bold_marker());
    reveal_strlit("**");
    let k = rendered(pre).len() as int;
    assert(rendered(edges).subrange(k, k + t@.len() + 4) =~= bold_marker() + t@ + bold_marker());
}

/// A walk with no highlighted element renders to its literal text alone:
/// text without emphasis passes through unchanged.
pub proof fn lemma_plain_text(edges: Seq<MarkupEdge>)
    requires
        forall|i: int| 0 <= i < edges.len() ==> !marks_highlight(#[trigger] edges[i]),
    ensures
        rendered(edges) == text_only(edges),
    decreases edges.len(),
{
    if edges.len() > 0 {
        assert(!marks_highlight(edges[edges.len() - 1]));
        lemma_plain_text(edges.drop_last());
    }
}

/// Relies on scraper's `Html::parse_fragment`, which parses any input
/// leniently into a tree, and on ego_tree's `traverse`, which enters and
/// leaves each node of that tree in document order. The walk depends on the
/// fragment alone.
#[verifier::external_body]
fn parse_fragment(fragment: &str) -> (r: Vec<MarkupEdge>)
    ensures
        r@ == fragment_edges(fragment@),
{
    let html = scraper::Html::parse_fragment(fragment);
    let classes = |e: &scraper::node::Element| e.classes().map(String::from).collect();
    html.tree.root().traverse().map(|edge| match edge {
        ego_tree::iter::Edge::Open(node) => match node.value() {
            scraper::Node::Text(t) => MarkupEdge::Text(t.text.to_string()),
            scraper::Node::Element(e) => MarkupEdge::Open(classes(e)),
            _ => MarkupEdge::Other,
        },
        ego_tree::iter::Edge::Close(node) => match node.value() {
            scraper::Node::Element(e) => MarkupEdge::Close(classes(e)),
            _ => MarkupEdge::Other,
        },
    }).collect()
}

fn has_highlight_class(classes: &Vec<String>) -> (r: bool)
    ensures
        r == is_highlighted(classes@),
{
    let wanted = String::from_str("highlight");
    let mut i: usize = 0;
    while i < classes.len()
        invariant
            i <= classes@.len(),
            wanted@ == highlight_class(),
            forall|j: int| 0 <= j < i ==> classes@[j]@ != highlight_class(),
        decreases classes@.len() - i,
    {
        if classes[i] == wanted {
            return true;
        }
        i += 1;
    }
    false
}

/// Writes out a walk as plain text: text verbatim, and a bold marker where a
/// highlighted element opens and where it closes.
pub fn render_edges(edges: &Vec<MarkupEdge>) -> (r: String)
    ensures
        r@ == rendered(edges@),
{
    let mut buf = String::new();
    let mut i: usize = 0;
    while i < edges.len()
        invariant
            i <= edges@.len(),
            buf@ == rendered(edges@.subrange(0, i as int)),
        decreases edges@.len() - i,
    {
        match &edges[i] {
            MarkupEdge::Text(t) => buf.append(t.as_str()),
            MarkupEdge::Open(c) => {
                if has_highlight_class(c) {
                    buf.append("**");
                }
            },
            MarkupEdge::Close(c) => {
                if has_highlight_class(c) {
                    buf.append("**");
                }
            },
            MarkupEdge::Other => {},
        }
        assert(edges@.subrange(0, i + 1).drop_last() =~= edges@.subrange(0, i as int));
        i += 1;
    }
    assert(edges@.subrange(0, edges@.len() as int) =~= edges@);
    buf
}

/// Converts a markup fragment to plain text, keeping highlighted spans as
/// bold-delimited text.
pub fn strip_tags(input: &str) -> (r: String)
    ensures
        r@ == rendered(fragment_edges(input@)),
{
    let edges = parse_fragment(input);
    render_edges(&edges)
}

} // verus!
