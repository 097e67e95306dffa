//! The product record and its builder: a record starts empty, header
//! extraction fills the name, price extraction fills the price and the
//! tier message. A missing header chain is fatal; a missing or garbled
//! price degrades to `0` and the record still completes classification.

use vstd::prelude::*;

use crate::{classify, spec_classify, PriceTier};
use crate::dom::{dom_of, parse_dom, wf_dom, DomNode};
use crate::extract::{extract_header, extract_price, spec_header_text, spec_price_value};

verus! {

/// Raised when the header element chain is absent: the page structure has
/// changed and the record cannot be trusted.
#[derive(Clone, Copy, Debug, PartialEq, Eq, Structural)]
pub enum ExtractionError {
    MissingHeader,
}

/// The final product record handed to the caller.
#[derive(Debug)]
pub struct SimpleProductResponse {
    pub price: i32,
    pub name: String,
    pub message: String,
}

/// The message of a tier, fixed per tier.
pub open spec fn spec_tier_message(t: PriceTier) -> Seq<char> {
    match t {
        PriceTier::BelowThreshold => "Go and buy 🎉📷"@,
        PriceTier::AtThreshold => "Nah! Still too expensive 😕"@,
        PriceTier::AboveThreshold => "Oh, No! It's even more expensive 😩"@,
    }
}

/// Render the fixed message of a tier.
pub fn tier_message(t: PriceTier) -> (m: String)
    ensures
        m@ == spec_tier_message(t),
{
    match t {
        PriceTier::BelowThreshold => String::from_str("Go and buy 🎉📷"),
        PriceTier::AtThreshold => String::from_str("Nah! Still too expensive 😕"),
        PriceTier::AboveThreshold => String::from_str("Oh, No! It's even more expensive 😩"),
    }
}

/// A product record under construction, together with the parsed document
/// it is read from.
pub struct ParseProduct {
    pub price: i32,
    pub name: String,
    pub message: String,
    pub dom: Vec<DomNode>,
}

impl ParseProduct {
    /// The parsed document this record reads, as a sequence of nodes.
    pub open spec fn dom_view(&self) -> Seq<DomNode> {
        self.dom@
    }

    /// The stored document is well-formed: parent links descend.
    pub open spec fn wf(&self) -> bool {
        wf_dom(self.dom_view())
    }

    /// Parse the raw page text and start an empty record over it.
    pub fn new(html_string: String) -> (r: ParseProduct)
        ensures
            r.dom_view() == dom_of(html_string@),
            r.wf(),
            r.price == 0,
            r.name@ == Seq::<char>::empty(),
            r.message@ == Seq::<char>::empty(),
    {
        ParseProduct {
            dom: parse_dom(html_string.as_str()),
            name: String::new(),
            price: 0,
            message: String::new(),
        }
    }

    /// Fill the name from the document's header, tentatively using it as
    /// the message as well; fail when the header chain is absent.
    pub fn parse_header(self) -> (r: Result<ParseProduct, ExtractionError>)
        requires
            self.wf(),
        ensures
            (match spec_header_text(self.dom_view()) {
                Some(h) => r matches Ok(p) && p.name@ == h && p.message@ == h && p.price
                    == self.price && p.dom_view() == self.dom_view() && p.wf(),
                None => r == Err::<ParseProduct, ExtractionError>(ExtractionError::MissingHeader),
            }),
    {
        match extract_header(&self.dom) {
            None => Err(ExtractionError::MissingHeader),
            Some(header) => {
                let name = header.clone();
                Ok(
                    ParseProduct {
                        name,
                        price: self.price,
                        message: header,
                        dom: self.dom,
                    },
                )
            },
        }
    }

    /// Fill the price from the document's price display and classify it:
    /// the message becomes the tier message. A missing or unparsable price
    /// degrades to `0`, which classifies below the threshold.
    pub fn parse_price(self) -> (r: ParseProduct)
        requires
            self.wf(),
        ensures
            r.price == spec_price_value(self.dom_view()),
            r.message@ == spec_tier_message(spec_classify(r.price as int)),
            r.name@ == self.name@,
            r.dom_view() == self.dom_view(),
            r.wf(),
    {
        let price = extract_price(&self.dom);
        let message = tier_message(classify(price));
        ParseProduct { price, name: self.name, message, dom: self.dom }
    }

    /// Copy the finished fields into the response record.
    pub fn to_response(&self) -> (r: SimpleProductResponse)
        ensures
            r.price == self.price,
            r.name@ == self.name@,
            r.message@ == self.message@,
    {
        SimpleProductResponse {
            price: self.price,
            name: self.name.clone(),
            message: self.message.clone(),
        }
    }
}

} // verus!
