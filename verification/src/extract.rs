//! The extractor: locates the two fragments the pipeline needs inside a
//! parsed document. The header text lives under the first `h1` within the
//! first element carrying the `header-item` class; the price is an
//! attribute of the first `meta` element within the element with the fixed
//! price-display id, read from the last attribute whose name holds
//! `content` and parsed as a decimal integer, degrading to `0` when absent
//! or unparsable.

use vstd::prelude::*;

use crate::dom::{
    find_class, find_class_from, find_id, find_id_from, find_named_desc, find_named_desc_from,
    collect_texts, texts_under, wf_dom, DomNode, NodeKind,
};
use crate::numeric::{parse_i32, spec_parse_i32};
use crate::text::{contains_seq, str_contains};

verus! {

/// The header text of a document: the concatenated text under the first
/// `h1` inside the first element with class `header-item`; `None` when
/// that element chain is absent.
pub open spec fn spec_header_text(d: Seq<DomNode>) -> Option<Seq<char>> {
    match find_class_from(d, 0, "header-item"@) {
        None => None,
        Some(c) => match find_named_desc_from(d, c + 1, "h1"@, c) {
            None => None,
            Some(h) => Some(texts_under(d, h, d.len() as int)),
        },
    }
}

/// The attribute list of the first `meta` element inside the element whose
/// id is the fixed price-display identifier; `None` when that chain is
/// absent.
pub open spec fn spec_price_attrs(d: Seq<DomNode>) -> Option<Seq<(String, String)>> {
    match find_id_from(d, 0, "our_price_display_64336"@) {
        None => None,
        Some(p) => match find_named_desc_from(d, p + 1, "meta"@, p) {
            None => None,
            Some(m) => match d[m].kind {
                NodeKind::Element { attrs, .. } => Some(attrs@),
                _ => None,
            },
        },
    }
}

/// The price read from a meta attribute list: the last attribute whose
/// name holds `content` decides, its value parsed as a decimal `i32`,
/// `0` when it does not parse; `0` when no such attribute exists.
pub open spec fn spec_price_from_attrs(a: Seq<(String, String)>) -> i32
    decreases a.len(),
{
    if a.len() == 0 {
        0
    } else if contains_seq(a.last().0@, "content"@) {
        match spec_parse_i32(a.last().1@) {
            Some(v) => v,
            None => 0,
        }
    } else {
        spec_price_from_attrs(a.drop_last())
    }
}

/// The price of a document: what its price-display meta attributes give,
/// or `0` when the chain to them is absent.
pub open spec fn spec_price_value(d: Seq<DomNode>) -> i32 {
    match spec_price_attrs(d) {
        Some(a) => spec_price_from_attrs(a),
        None => 0,
    }
}

/// Extract the header text, or `None` when the header element chain is
/// absent from the document.
pub fn extract_header(d: &Vec<DomNode>) -> (r: Option<String>)
    requires
        wf_dom(d@),
    ensures
        match r {
            Some(s) => spec_header_text(d@) == Some(s@),
            None => spec_header_text(d@) is None,
        },
{
    let n = d.len();
    match find_class(d, "header-item") {
        None => None,
        Some(c) => {
            assert(c < n);
            match find_named_desc(d, c + 1, "h1", c) {
                None => None,
                Some(h) => Some(collect_texts(d, h)),
            }
        },
    }
}

/// Read the deciding `content`-named attribute out of a meta attribute
/// list.
pub fn price_from_attrs(attrs: &Vec<(String, String)>) -> (p: i32)
    ensures
        p == spec_price_from_attrs(attrs@),
{
    let mut p: i32 = 0;
    let mut i: usize = 0;
    proof {
        assert(attrs@.subrange(0, 0).len() == 0);
    }
    while i < attrs.len()
        invariant
            i <= attrs@.len(),
            p == spec_price_from_attrs(attrs@.subrange(0, i as int)),
        decreases attrs@.len() - i,
    {
        if str_contains(attrs[i].0.as_str(), "content") {
            p = match parse_i32(attrs[i].1.as_str()) {
                Some(v) => v,
                None => 0,
            };
        }
        i += 1;
        proof {
            assert(attrs@.subrange(0, i as int).drop_last() =~= attrs@.subrange(0, i - 1));
            assert(attrs@.subrange(0, i as int).last() == attrs@[i - 1]);
        }
    }
    proof {
        assert(attrs@.subrange(0, attrs@.len() as int) =~= attrs@);
    }
    p
}

/// Extract the price. A missing price element, meta element or usable
/// attribute, and an unparsable value, all degrade to `0`.
pub fn extract_price(d: &Vec<DomNode>) -> (p: i32)
    requires
        wf_dom(d@),
    ensures
        p == spec_price_value(d@),
{
    let n = d.len();
    match find_id(d, "our_price_display_64336") {
        None => 0,
        Some(pe) => {
            assert(pe < n);
            match find_named_desc(d, pe + 1, "meta", pe) {
                None => 0,
                Some(m) => match &d[m].kind {
                    NodeKind::Element { attrs, .. } => price_from_attrs(attrs),
                    _ => {
                        proof {
                            assert(false);
                        }
                        0
                    },
                },
            }
        },
    }
}

} // verus!
