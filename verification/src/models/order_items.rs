use vstd::prelude::*;
use super::ActiveValue;
use rust_decimal::Decimal;

verus! {

/// A line of an order, with the product details copied at ordering time, as stored.
#[derive(Debug)]
pub struct Model {
    pub id: i32,
    pub order_id: i32,
    pub product_id: i32,
    pub seller_id: i32,
    pub product_name: Option<String>,
    pub product_price: Decimal,
    pub product_sku: Option<String>,
    pub product_condition: Option<String>,
    pub qty: i32,
}

/// The same row being written, column by column.
#[derive(Debug)]
pub struct ActiveModel {
    pub id: ActiveValue<i32>,
    pub order_id: ActiveValue<i32>,
    pub product_id: ActiveValue<i32>,
    pub seller_id: ActiveValue<i32>,
    pub product_name: ActiveValue<Option<String>>,
    pub product_price: ActiveValue<Decimal>,
    pub product_sku: ActiveValue<Option<String>>,
    pub product_condition: ActiveValue<Option<String>>,
    pub qty: ActiveValue<i32>,
}

impl ActiveModel {
    /// A row with no column set.
    pub fn new() -> (res: Self)
        ensures
            res.id is NotSet,
            res.order_id is NotSet,
            res.product_id is NotSet,
            res.seller_id is NotSet,
            res.product_name is NotSet,
            res.product_price is NotSet,
            res.product_sku is NotSet,
            res.product_condition is NotSet,
            res.qty is NotSet,
    {
        ActiveModel {
            id: ActiveValue::NotSet,
            order_id: ActiveValue::NotSet,
            product_id: ActiveValue::NotSet,
            seller_id: ActiveValue::NotSet,
            product_name: ActiveValue::NotSet,
            product_price: ActiveValue::NotSet,
            product_sku: ActiveValue::NotSet,
            product_condition: ActiveValue::NotSet,
            qty: ActiveValue::NotSet,
        }
    }
}

impl Model {
    /// The stored row as a row to write back: every column unchanged.
    pub open spec fn unchanged(self) -> ActiveModel {
        ActiveModel {
            id: ActiveValue::Unchanged(self.id),
            order_id: ActiveValue::Unchanged(self.order_id),
            product_id: ActiveValue::Unchanged(self.product_id),
            seller_id: ActiveValue::Unchanged(self.seller_id),
            product_name: ActiveValue::Unchanged(self.product_name),
            product_price: ActiveValue::Unchanged(self.product_price),
            product_sku: ActiveValue::Unchanged(self.product_sku),
            product_condition: ActiveValue::Unchanged(self.product_condition),
            qty: ActiveValue::Unchanged(self.qty),
        }
    }

    /// The stored row as a row to write back (see `unchanged`).
    pub fn into_active_model(self) -> (res: ActiveModel)
        ensures
            res == self.unchanged(),
    {
        ActiveModel {
            id: ActiveValue::Unchanged(self.id),
            order_id: ActiveValue::Unchanged(self.order_id),
            product_id: ActiveValue::Unchanged(self.product_id),
            seller_id: ActiveValue::Unchanged(self.seller_id),
            product_name: ActiveValue::Unchanged(self.product_name),
            product_price: ActiveValue::Unchanged(self.product_price),
            product_sku: ActiveValue::Unchanged(self.product_sku),
            product_condition: ActiveValue::Unchanged(self.product_condition),
            qty: ActiveValue::Unchanged(self.qty),
        }
    }
}


} // verus!
