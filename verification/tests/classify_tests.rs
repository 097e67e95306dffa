use price_watch::model::tier_message;
use price_watch::{classify, PriceTier, EXPENSIVE_PRICE};

#[test]
fn threshold_boundary_at() {
    assert_eq!(classify(3999), PriceTier::AtThreshold);
}

#[test]
fn threshold_boundary_below() {
    assert_eq!(classify(3998), PriceTier::BelowThreshold);
}

#[test]
fn threshold_boundary_above() {
    assert_eq!(classify(4000), PriceTier::AboveThreshold);
}

#[test]
fn zero_price_is_below_threshold() {
    assert_eq!(classify(0), PriceTier::BelowThreshold);
}

#[test]
fn negative_price_is_below_threshold() {
    assert_eq!(classify(-5), PriceTier::BelowThreshold);
    assert_eq!(classify(i32::MIN), PriceTier::BelowThreshold);
}

#[test]
fn large_price_is_above_threshold() {
    assert_eq!(classify(i32::MAX), PriceTier::AboveThreshold);
}

#[test]
fn classify_is_deterministic() {
    for p in [0, 3998, 3999, 4000, -1, 250000] {
        assert_eq!(classify(p), classify(p));
    }
}

#[test]
fn threshold_constant_value() {
    assert_eq!(EXPENSIVE_PRICE, 3999);
}

#[test]
fn tier_messages_are_fixed() {
    assert_eq!(tier_message(PriceTier::BelowThreshold), "Go and buy 🎉📷");
    assert_eq!(tier_message(PriceTier::AtThreshold), "Nah! Still too expensive 😕");
    assert_eq!(
        tier_message(PriceTier::AboveThreshold),
        "Oh, No! It's even more expensive 😩"
    );
}
