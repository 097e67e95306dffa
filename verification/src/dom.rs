//! A parsed document as plain values: a flat list of nodes in document
//! order, each pointing back at its parent. The page parser of the
//! `scraper` crate builds the tree; a trusted conversion flattens it, and
//! everything that reads the tree — descendant tests, element searches,
//! text collection — is verified here.

use vstd::prelude::*;

use crate::text::{has_token, str_eq, str_has_token};

verus! {

/// One node of a parsed document. `parent` is the index of the enclosing
/// node, which comes earlier in document order.
pub struct DomNode {
    pub parent: Option<usize>,
    pub kind: NodeKind,
}

/// What a node is: an element with its (lowercased) local name and its
/// attributes as (name, value) pairs in stored order; a text node with its
/// text; or anything else (comments, doctypes, the roots).
pub enum NodeKind {
    Element { name: String, attrs: Vec<(String, String)> },
    Text { text: String },
    Other,
}

/// Every node's parent precedes it: parent links descend strictly.
pub open spec fn wf_dom(d: Seq<DomNode>) -> bool {
    forall|i: int|
        0 <= i < d.len() ==> match #[trigger] d[i].parent {
            Some(p) => (p as int) < i,
            None => true,
        }
}

/// The nodes that the page parser yields for the document text `s`, in
/// document order.
pub uninterp spec fn dom_of(s: Seq<char>) -> Seq<DomNode>;

#[verifier::external_type_specification]
#[verifier::external_body]
pub struct ExScraperNode(scraper::Node);

/// Relies on scraper's node representation: an element node carries its
/// local (lowercased) name and its attributes as (name, value) pairs in
/// their stored order; a text node carries its text; every other kind of
/// node carries nothing the extractor reads.
#[verifier::external_body]
fn convert_node(n: &scraper::Node, parent: Option<usize>) -> (r: DomNode)
    ensures
        r.parent == parent,
{
    let kind = match n {
        scraper::Node::Element(e) => NodeKind::Element {
            name: e.name().to_string(),
            attrs: e.attrs().map(|(k, v)| (k.to_string(), v.to_string())).collect(),
        },
        scraper::Node::Text(t) => NodeKind::Text { text: t.text.to_string() },
        _ => NodeKind::Other,
    };
    DomNode { parent, kind }
}

/// Relies on scraper::Html::parse_document and on ego-tree's depth-first
/// traversal: parsing is a function of the document text alone, and the
/// traversal yields every node of the tree exactly once, in document
/// order, each one after its parent.
#[verifier::external_body]
pub(crate) fn parse_dom(html: &str) -> (r: Vec<DomNode>)
    ensures
        r@ == dom_of(html@),
        wf_dom(r@),
{
    let doc = scraper::Html::parse_document(html);
    let mut ids = std::collections::HashMap::new();
    let mut out: Vec<DomNode> = Vec::new();
    for n in doc.tree.root().descendants() {
        let parent = n.parent().and_then(|p| ids.get(&p.id()).copied());
        ids.insert(n.id(), out.len());
        out.push(convert_node(n.value(), parent));
    }
    out
}

/// The parent chain starting at `i` passes through `a` (in particular when
/// `i` is `a` itself).
pub open spec fn hits(d: Seq<DomNode>, i: int, a: int) -> bool
    decreases i,
{
    i == a || (0 <= i < d.len() && match d[i].parent {
        Some(p) => (p as int) < i && hits(d, p as int, a),
        None => false,
    })
}

/// `i` lies strictly inside the subtree rooted at `a`.
pub open spec fn is_descendant(d: Seq<DomNode>, i: int, a: int) -> bool {
    i != a && hits(d, i, a)
}

/// Walk the parent chain of `i` and report whether it passes through `a`.
pub fn chain_hits(d: &Vec<DomNode>, i: usize, a: usize) -> (r: bool)
    requires
        wf_dom(d@),
        i < d@.len(),
    ensures
        r == hits(d@, i as int, a as int),
{
    let mut cur: usize = i;
    loop
        invariant
            wf_dom(d@),
            cur < d@.len(),
            hits(d@, i as int, a as int) == hits(d@, cur as int, a as int),
        decreases cur,
    {
        if cur == a {
            return true;
        }
        match d[cur].parent {
            Some(p) => {
                cur = p;
            },
            None => {
                return false;
            },
        }
    }
}

/// Value of the first attribute named `key`, if any.
pub open spec fn attr_lookup(attrs: Seq<(String, String)>, key: Seq<char>) -> Option<Seq<char>>
    decreases attrs.len(),
{
    if attrs.len() == 0 {
        None
    } else if attrs[0].0@ == key {
        Some(attrs[0].1@)
    } else {
        attr_lookup(attrs.drop_first(), key)
    }
}

/// Look up the first attribute named `key`.
pub fn attr_value(attrs: &Vec<(String, String)>, key: &str) -> (r: Option<String>)
    ensures
        match r {
            Some(v) => attr_lookup(attrs@, key@) == Some(v@),
            None => attr_lookup(attrs@, key@) is None,
        },
{
    proof {
        assert(attrs@.skip(0) =~= attrs@);
    }
    let mut i: usize = 0;
    while i < attrs.len()
        invariant
            i <= attrs@.len(),
            attr_lookup(attrs@, key@) == attr_lookup(attrs@.skip(i as int), key@),
        decreases attrs@.len() - i,
    {
        proof {
            assert(attrs@.skip(i as int)[0] == attrs@[i as int]);
            assert(attrs@.skip(i as int).drop_first() =~= attrs@.skip(i + 1));
        }
        if str_eq(attrs[i].0.as_str(), key) {
            return Some(attrs[i].1.clone());
        }
        i += 1;
    }
    proof {
        assert(attrs@.skip(attrs@.len() as int).len() == 0);
    }
    None
}

/// `n` is an element whose name is `name`.
pub open spec fn is_elem_named(n: DomNode, name: Seq<char>) -> bool {
    match n.kind {
        NodeKind::Element { name: m, .. } => m@ == name,
        _ => false,
    }
}

/// `n` is an element whose `class` attribute lists the token `cls`.
pub open spec fn elem_has_class(n: DomNode, cls: Seq<char>) -> bool {
    match n.kind {
        NodeKind::Element { attrs, .. } => match attr_lookup(attrs@, "class"@) {
            Some(v) => has_token(v, cls),
            None => false,
        },
        _ => false,
    }
}

/// `n` is an element whose `id` attribute equals `id`.
pub open spec fn elem_has_id(n: DomNode, id: Seq<char>) -> bool {
    match n.kind {
        NodeKind::Element { attrs, .. } => match attr_lookup(attrs@, "id"@) {
            Some(v) => v == id,
            None => false,
        },
        _ => false,
    }
}

/// Whether node `n` is an element named `name`.
pub fn node_is_named(n: &DomNode, name: &str) -> (r: bool)
    ensures
        r == is_elem_named(*n, name@),
{
    match &n.kind {
        NodeKind::Element { name: m, .. } => str_eq(m.as_str(), name),
        _ => false,
    }
}

/// Whether node `n` is an element listing class token `cls`.
pub fn node_has_class(n: &DomNode, cls: &str) -> (r: bool)
    ensures
        r == elem_has_class(*n, cls@),
{
    match &n.kind {
        NodeKind::Element { attrs, .. } => match attr_value(attrs, "class") {
            Some(v) => str_has_token(v.as_str(), cls),
            None => false,
        },
        _ => false,
    }
}

/// Whether node `n` is an element whose id is `id`.
pub fn node_has_id(n: &DomNode, id: &str) -> (r: bool)
    ensures
        r == elem_has_id(*n, id@),
{
    match &n.kind {
        NodeKind::Element { attrs, .. } => match attr_value(attrs, "id") {
            Some(v) => str_eq(v.as_str(), id),
            None => false,
        },
        _ => false,
    }
}

/// Index of the first node at or after `i` that is an element listing
/// class token `cls`.
pub open spec fn find_class_from(d: Seq<DomNode>, i: int, cls: Seq<char>) -> Option<int>
    decreases d.len() - i,
{
    if i < 0 || i >= d.len() {
        None
    } else if elem_has_class(d[i], cls) {
        Some(i)
    } else {
        find_class_from(d, i + 1, cls)
    }
}

/// Index of the first node at or after `i` that is an element whose id is
/// `id`.
pub open spec fn find_id_from(d: Seq<DomNode>, i: int, id: Seq<char>) -> Option<int>
    decreases d.len() - i,
{
    if i < 0 || i >= d.len() {
        None
    } else if elem_has_id(d[i], id) {
        Some(i)
    } else {
        find_id_from(d, i + 1, id)
    }
}

/// Index of the first node at or after `i` that is an element named `name`
/// lying strictly inside the subtree of `anc`.
pub open spec fn find_named_desc_from(
    d: Seq<DomNode>,
    i: int,
    name: Seq<char>,
    anc: int,
) -> Option<int>
    decreases d.len() - i,
{
    if i < 0 || i >= d.len() {
        None
    } else if is_elem_named(d[i], name) && is_descendant(d, i, anc) {
        Some(i)
    } else {
        find_named_desc_from(d, i + 1, name, anc)
    }
}

/// Find the first element with class token `cls`, in document order.
pub fn find_class(d: &Vec<DomNode>, cls: &str) -> (r: Option<usize>)
    ensures
        match r {
            Some(i) => i < d@.len() && elem_has_class(d@[i as int], cls@) && find_class_from(
                d@,
                0,
                cls@,
            ) == Some(i as int),
            None => find_class_from(d@, 0, cls@) is None,
        },
{
    let mut i: usize = 0;
    while i < d.len()
        invariant
            i <= d@.len(),
            find_class_from(d@, 0, cls@) == find_class_from(d@, i as int, cls@),
        decreases d@.len() - i,
    {
        if node_has_class(&d[i], cls) {
            return Some(i);
        }
        i += 1;
    }
    None
}

/// Find the first element whose id is `id`, in document order.
pub fn find_id(d: &Vec<DomNode>, id: &str) -> (r: Option<usize>)
    ensures
        match r {
            Some(i) => i < d@.len() && elem_has_id(d@[i as int], id@) && find_id_from(d@, 0, id@)
                == Some(i as int),
            None => find_id_from(d@, 0, id@) is None,
        },
{
    let mut i: usize = 0;
    while i < d.len()
        invariant
            i <= d@.len(),
            find_id_from(d@, 0, id@) == find_id_from(d@, i as int, id@),
        decreases d@.len() - i,
    {
        if node_has_id(&d[i], id) {
            return Some(i);
        }
        i += 1;
    }
    None
}

/// Find the first element named `name` strictly inside the subtree of
/// `anc`, searching from `start` in document order.
pub fn find_named_desc(d: &Vec<DomNode>, start: usize, name: &str, anc: usize) -> (r: Option<
    usize,
>)
    requires
        wf_dom(d@),
    ensures
        match r {
            Some(i) => i < d@.len() && is_elem_named(d@[i as int], name@) && is_descendant(
                d@,
                i as int,
                anc as int,
            ) && find_named_desc_from(d@, start as int, name@, anc as int) == Some(i as int),
            None => find_named_desc_from(d@, start as int, name@, anc as int) is None,
        },
{
    let mut i: usize = start;
    while i < d.len()
        invariant
            wf_dom(d@),
            start <= i,
            i <= d@.len() || i == start,
            find_named_desc_from(d@, start as int, name@, anc as int) == find_named_desc_from(
                d@,
                i as int,
                name@,
                anc as int,
            ),
        decreases d@.len() - i,
    {
        if node_is_named(&d[i], name) && i != anc && chain_hits(d, i, anc) {
            return Some(i);
        }
        i += 1;
    }
    None
}

/// The concatenated text of the text nodes lying inside the subtree of
/// `anc` among the first `upto` nodes, in document order.
pub open spec fn texts_under(d: Seq<DomNode>, anc: int, upto: int) -> Seq<char>
    decreases upto,
{
    if upto <= 0 {
        Seq::empty()
    } else {
        texts_under(d, anc, upto - 1) + (if 0 <= upto - 1 < d.len() && is_descendant(
            d,
            upto - 1,
            anc,
        ) {
            match d[upto - 1].kind {
                NodeKind::Text { text } => text@,
                _ => Seq::empty(),
            }
        } else {
            Seq::empty()
        })
    }
}

/// Concatenate, in document order, the text of every text node inside the
/// subtree of `anc`.
pub fn collect_texts(d: &Vec<DomNode>, anc: usize) -> (s: String)
    requires
        wf_dom(d@),
        anc < d@.len(),
    ensures
        s@ == texts_under(d@, anc as int, d@.len() as int),
{
    let mut s = String::new();
    let mut j: usize = 0;
    while j < d.len()
        invariant
            wf_dom(d@),
            anc < d@.len(),
            j <= d@.len(),
            s@ == texts_under(d@, anc as int, j as int),
        decreases d@.len() - j,
    {
        if j != anc && chain_hits(d, j, anc) {
            match &d[j].kind {
                NodeKind::Text { text } => {
                    s.append(text.as_str());
                },
                _ => {},
            }
        }
        j += 1;
        proof {
            assert(s@ =~= texts_under(d@, anc as int, j as int));
        }
    }
    s
}

} // verus!
