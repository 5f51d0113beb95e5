use vstd::prelude::*;
use rust_decimal::Decimal;

verus! {

/// What the library reads of a product row: who sells it, what it is called,
/// what it costs, how many are left. The dimensions and free-form columns
/// stay with the caller.
pub struct ProductSnapshot {
    pub id: i32,
    pub seller_id: i32,
    pub title: String,
    pub price: Decimal,
    pub stock: i32,
    pub sku: String,
    /// The stored text of the product's condition.
    pub condition: Option<String>,
}

} // verus!
