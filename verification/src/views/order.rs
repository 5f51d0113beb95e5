use vstd::prelude::*;
use rust_decimal::Decimal;
use crate::models::order_items;

verus! {

/// A line of an order as the API shows it.
#[derive(Debug)]
pub struct OrderItemResponse {
    pub id: i32,
    pub product_name: Option<String>,
    pub product_price: Decimal,
    pub product_sku: Option<String>,
    pub qty: i32,
}

impl OrderItemResponse {
    /// The line's id, product name, price, SKU and quantity.
    pub fn from_model(m: order_items::Model) -> (res: Self)
        ensures
            res.id == m.id,
            res.product_name == m.product_name,
            res.product_price == m.product_price,
            res.product_sku == m.product_sku,
            res.qty == m.qty,
    {
        OrderItemResponse {
            id: m.id,
            product_name: m.product_name,
            product_price: m.product_price,
            product_sku: m.product_sku,
            qty: m.qty,
        }
    }
}

} // verus!
