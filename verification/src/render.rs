//! Rendering of the outbound notification: a fixed multi-line template
//! embedding the product name, the price, the tier message and the source
//! URL, reproduced byte for byte.

use vstd::prelude::*;

use crate::model::ParseProduct;
use crate::numeric::{i32_to_string, spec_i32_str};

verus! {

/// The notification text for a product: the fixed template with the name,
/// the decimal price, the tier message and the source URL filled in.
pub open spec fn spec_notification(
    name: Seq<char>,
    price: int,
    message: Seq<char>,
    url: Seq<char>,
) -> Seq<char> {
    "=============== Photosynthesis ===============\nRequesting information for Sony A7 IIIn\nProduct: "@
        + name + "\nPrice: "@ + spec_i32_str(price) + "\n"@ + message + "\nProduct URL: "@ + url
        + "\n\n=============================================="@
}

/// Render the notification for the given fragments.
pub fn render_notification(name: &str, price: i32, message: &str, url: &str) -> (m: String)
    ensures
        m@ == spec_notification(name@, price as int, message@, url@),
{
    let mut m = String::from_str(
        "=============== Photosynthesis ===============\nRequesting information for Sony A7 IIIn\nProduct: ",
    );
    m.append(name);
    m.append("\nPrice: ");
    let price_digits = i32_to_string(price);
    m.append(price_digits.as_str());
    m.append("\n");
    m.append(message);
    m.append("\nProduct URL: ");
    m.append(url);
    m.append("\n\n==============================================");
    proof {
        assert(m@ =~= spec_notification(name@, price as int, message@, url@));
    }
    m
}

/// Render the notification for a finished record.
pub fn build_email_message(product: &ParseProduct, source_url: &str) -> (m: String)
    ensures
        m@ == spec_notification(
            product.name@,
            product.price as int,
            product.message@,
            source_url@,
        ),
{
    render_notification(product.name.as_str(), product.price, product.message.as_str(), source_url)
}

} // verus!
