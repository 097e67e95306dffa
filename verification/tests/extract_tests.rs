use price_watch::dom::{DomNode, NodeKind};
use price_watch::extract::{extract_header, extract_price, price_from_attrs};

fn elem(parent: Option<usize>, name: &str, attrs: &[(&str, &str)]) -> DomNode {
    DomNode {
        parent,
        kind: NodeKind::Element {
            name: name.to_string(),
            attrs: attrs.iter().map(|(k, v)| (k.to_string(), v.to_string())).collect(),
        },
    }
}

fn text(parent: Option<usize>, t: &str) -> DomNode {
    DomNode { parent, kind: NodeKind::Text { text: t.to_string() } }
}

fn sample_doc(price_attrs: &[(&str, &str)]) -> Vec<DomNode> {
    vec![
        elem(None, "html", &[]),
        elem(Some(0), "div", &[("class", "header-item")]),
        elem(Some(1), "h1", &[]),
        text(Some(2), "Sony "),
        elem(Some(2), "span", &[]),
        text(Some(4), "Alpha"),
        elem(Some(0), "div", &[("id", "our_price_display_64336")]),
        elem(Some(6), "meta", price_attrs),
    ]
}

#[test]
fn header_concatenates_texts_in_document_order() {
    let doc = sample_doc(&[("content", "4100")]);
    assert_eq!(extract_header(&doc).as_deref(), Some("Sony Alpha"));
}

#[test]
fn header_absent_when_class_missing() {
    let mut doc = sample_doc(&[("content", "4100")]);
    doc[1] = elem(Some(0), "div", &[("class", "header")]);
    assert_eq!(extract_header(&doc), None);
}

#[test]
fn header_absent_when_h1_outside_container() {
    let mut doc = sample_doc(&[("content", "4100")]);
    doc[2] = elem(Some(0), "h1", &[]);
    assert_eq!(extract_header(&doc), None);
}

#[test]
fn price_read_from_content_attribute() {
    let doc = sample_doc(&[("itemprop", "price"), ("content", "4100")]);
    assert_eq!(extract_price(&doc), 4100);
}

#[test]
fn price_zero_without_content_attribute() {
    let doc = sample_doc(&[("itemprop", "price")]);
    assert_eq!(extract_price(&doc), 0);
}

#[test]
fn price_zero_on_unparsable_value() {
    let doc = sample_doc(&[("content", "3,999")]);
    assert_eq!(extract_price(&doc), 0);
}

#[test]
fn last_content_like_attribute_decides() {
    let attrs: Vec<(String, String)> = [("content", "100"), ("data-content", "200")]
        .iter()
        .map(|(k, v)| (k.to_string(), v.to_string()))
        .collect();
    assert_eq!(price_from_attrs(&attrs), 200);
}

#[test]
fn content_match_is_a_substring_match() {
    let attrs: Vec<(String, String)> = [("itemprop", "7"), ("data-content-x", "55")]
        .iter()
        .map(|(k, v)| (k.to_string(), v.to_string()))
        .collect();
    assert_eq!(price_from_attrs(&attrs), 55);
}
