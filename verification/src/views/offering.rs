use vstd::prelude::*;
use rust_decimal::Decimal;
use crate::models::offerings;

verus! {

/// A price offer as the API shows it; `status` is the stored text of the
/// offer's status.
#[derive(Debug)]
pub struct AddNegotiationProductResponse {
    pub id: i32,
    pub offer_price: Decimal,
    pub status: Option<String>,
    pub firebase_id: Option<String>,
    pub product_id: i32,
}

impl AddNegotiationProductResponse {
    /// The offer's id, price, status, chat id and product.
    pub fn new(offering: &offerings::Model) -> (res: Self)
        ensures
            res.id == offering.id,
            res.offer_price == offering.offer_price,
            res.status == offering.status,
            res.firebase_id == offering.firebase_id,
            res.product_id == offering.product_id,
    {
        AddNegotiationProductResponse {
            id: offering.id,
            offer_price: offering.offer_price,
            status: offering.status.clone(),
            firebase_id: offering.firebase_id.clone(),
            product_id: offering.product_id,
        }
    }
}

} // verus!
