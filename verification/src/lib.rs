//! Watches one retailer product page: extracts the product name and price
//! from the page's markup, classifies the price against a fixed threshold,
//! and renders a notification message.

use vstd::prelude::*;

pub mod dom;
pub mod extract;
pub mod model;
pub mod numeric;
pub mod pipeline;
pub mod render;
pub mod text;

verus! {

/// Fixed price threshold that separates the three price tiers.
pub const EXPENSIVE_PRICE: i32 = 3999;

/// One of three ordered price buckets relative to `EXPENSIVE_PRICE`.
#[derive(Clone, Copy, Debug, PartialEq, Eq, Structural)]
pub enum PriceTier {
    BelowThreshold,
    AtThreshold,
    AboveThreshold,
}

/// The tier a price falls in: a three-way comparison with the threshold.
pub open spec fn spec_classify(p: int) -> PriceTier {
    if p < EXPENSIVE_PRICE as int {
        PriceTier::BelowThreshold
    } else if p == EXPENSIVE_PRICE as int {
        PriceTier::AtThreshold
    } else {
        PriceTier::AboveThreshold
    }
}

/// Classify a price against the fixed threshold.
pub fn classify(price: i32) -> (t: PriceTier)
    ensures
        t == spec_classify(price as int),
{
    if price < EXPENSIVE_PRICE {
        PriceTier::BelowThreshold
    } else if price == EXPENSIVE_PRICE {
        PriceTier::AtThreshold
    } else {
        PriceTier::AboveThreshold
    }
}

/// Every integer price falls in exactly one tier, determined by its
/// three-way comparison with the threshold.
pub proof fn lemma_classify_total(p: int)
    ensures
        spec_classify(p) == PriceTier::BelowThreshold <==> p < EXPENSIVE_PRICE as int,
        spec_classify(p) == PriceTier::AtThreshold <==> p == EXPENSIVE_PRICE as int,
        spec_classify(p) == PriceTier::AboveThreshold <==> p > EXPENSIVE_PRICE as int,
{
}

} // verus!
