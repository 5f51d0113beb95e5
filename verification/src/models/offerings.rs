use vstd::prelude::*;
use super::ActiveValue;
use rust_decimal::Decimal;

verus! {

/// A price offer a buyer made on a product; `product_condition`, `status` and `action_type` hold the stored text of their enumerations, as stored.
#[derive(Debug)]
pub struct Model {
    pub id: i32,
    pub product_id: i32,
    pub user_id: i32,
    pub product_name: String,
    pub product_condition: Option<String>,
    pub product_price: Decimal,
    pub offer_price: Decimal,
    pub status: Option<String>,
    pub action_type: Option<String>,
    pub firebase_id: Option<String>,
}

/// The same row being written, column by column.
#[derive(Debug)]
pub struct ActiveModel {
    pub id: ActiveValue<i32>,
    pub product_id: ActiveValue<i32>,
    pub user_id: ActiveValue<i32>,
    pub product_name: ActiveValue<String>,
    pub product_condition: ActiveValue<Option<String>>,
    pub product_price: ActiveValue<Decimal>,
    pub offer_price: ActiveValue<Decimal>,
    pub status: ActiveValue<Option<String>>,
    pub action_type: ActiveValue<Option<String>>,
    pub firebase_id: ActiveValue<Option<String>>,
}

impl ActiveModel {
    /// A row with no column set.
    pub fn new() -> (res: Self)
        ensures
            res.id is NotSet,
            res.product_id is NotSet,
            res.user_id is NotSet,
            res.product_name is NotSet,
            res.product_condition is NotSet,
            res.product_price is NotSet,
            res.offer_price is NotSet,
            res.status is NotSet,
            res.action_type is NotSet,
            res.firebase_id is NotSet,
    {
        ActiveModel {
            id: ActiveValue::NotSet,
            product_id: ActiveValue::NotSet,
            user_id: ActiveValue::NotSet,
            product_name: ActiveValue::NotSet,
            product_condition: ActiveValue::NotSet,
            product_price: ActiveValue::NotSet,
            offer_price: ActiveValue::NotSet,
            status: ActiveValue::NotSet,
            action_type: ActiveValue::NotSet,
            firebase_id: ActiveValue::NotSet,
        }
    }
}

impl Model {
    /// The stored row as a row to write back: every column unchanged.
    pub open spec fn unchanged(self) -> ActiveModel {
        ActiveModel {
            id: ActiveValue::Unchanged(self.id),
            product_id: ActiveValue::Unchanged(self.product_id),
            user_id: ActiveValue::Unchanged(self.user_id),
            product_name: ActiveValue::Unchanged(self.product_name),
            product_condition: ActiveValue::Unchanged(self.product_condition),
            product_price: ActiveValue::Unchanged(self.product_price),
            offer_price: ActiveValue::Unchanged(self.offer_price),
            status: ActiveValue::Unchanged(self.status),
            action_type: ActiveValue::Unchanged(self.action_type),
            firebase_id: ActiveValue::Unchanged(self.firebase_id),
        }
    }

    /// The stored row as a row to write back (see `unchanged`).
    pub fn into_active_model(self) -> (res: ActiveModel)
        ensures
            res == self.unchanged(),
    {
        ActiveModel {
            id: ActiveValue::Unchanged(self.id),
            product_id: ActiveValue::Unchanged(self.product_id),
            user_id: ActiveValue::Unchanged(self.user_id),
            product_name: ActiveValue::Unchanged(self.product_name),
            product_condition: ActiveValue::Unchanged(self.product_condition),
            product_price: ActiveValue::Unchanged(self.product_price),
            offer_price: ActiveValue::Unchanged(self.offer_price),
            status: ActiveValue::Unchanged(self.status),
            action_type: ActiveValue::Unchanged(self.action_type),
            firebase_id: ActiveValue::Unchanged(self.firebase_id),
        }
    }
}


} // verus!
