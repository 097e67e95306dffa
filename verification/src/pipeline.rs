//! The pipeline orchestrator: parse, extract the header, extract and
//! classify the price, render the notification. A structural header
//! failure aborts the run before any classification or rendering; a price
//! failure never does.

use vstd::prelude::*;

use crate::dom::dom_of;
use crate::extract::{spec_header_text, spec_price_value};
use crate::model::{ExtractionError, ParseProduct, SimpleProductResponse, spec_tier_message};
use crate::render::{build_email_message, spec_notification};
use crate::spec_classify;

verus! {

/// Run the whole pipeline over raw page text: the finished record and the
/// rendered notification, or the structural error when the header chain is
/// absent from the parsed document.
pub fn run(html_string: String, source_url: &str) -> (r: Result<
    (SimpleProductResponse, String),
    ExtractionError,
>)
    ensures
        ({
            let d = dom_of(html_string@);
            match r {
                Ok(pair) => spec_header_text(d) matches Some(h) && pair.0.name@ == h
                    && pair.0.price == spec_price_value(d) && pair.0.message@ == spec_tier_message(
                    spec_classify(pair.0.price as int),
                ) && pair.1@ == spec_notification(
                    h,
                    pair.0.price as int,
                    pair.0.message@,
                    source_url@,
                ),
                Err(e) => spec_header_text(d) is None && e == ExtractionError::MissingHeader,
            }
        }),
{
    let product = ParseProduct::new(html_string);
    match product.parse_header() {
        Err(e) => Err(e),
        Ok(with_header) => {
            let classified = with_header.parse_price();
            let note = build_email_message(&classified, source_url);
            let response = classified.to_response();
            Ok((response, note))
        },
    }
}

} // verus!
