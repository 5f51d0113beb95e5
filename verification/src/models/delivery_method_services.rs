use vstd::prelude::*;
use super::ActiveValue;
use rust_decimal::Decimal;

verus! {

/// A service of a delivery method, with its price, as stored.
#[derive(Debug)]
pub struct Model {
    pub id: i32,
    pub delivery_method_id: i32,
    pub name: String,
    pub price: Decimal,
    pub active: bool,
}

/// The same row being written, column by column.
#[derive(Debug)]
pub struct ActiveModel {
    pub id: ActiveValue<i32>,
    pub delivery_method_id: ActiveValue<i32>,
    pub name: ActiveValue<String>,
    pub price: ActiveValue<Decimal>,
    pub active: ActiveValue<bool>,
}

impl ActiveModel {
    /// A row with no column set.
    pub fn new() -> (res: Self)
        ensures
            res.id is NotSet,
            res.delivery_method_id is NotSet,
            res.name is NotSet,
            res.price is NotSet,
            res.active is NotSet,
    {
        ActiveModel {
            id: ActiveValue::NotSet,
            delivery_method_id: ActiveValue::NotSet,
            name: ActiveValue::NotSet,
            price: ActiveValue::NotSet,
            active: ActiveValue::NotSet,
        }
    }
}

impl Model {
    /// The stored row as a row to write back: every column unchanged.
    pub open spec fn unchanged(self) -> ActiveModel {
        ActiveModel {
            id: ActiveValue::Unchanged(self.id),
            delivery_method_id: ActiveValue::Unchanged(self.delivery_method_id),
            name: ActiveValue::Unchanged(self.name),
            price: ActiveValue::Unchanged(self.price),
            active: ActiveValue::Unchanged(self.active),
        }
    }

    /// The stored row as a row to write back (see `unchanged`).
    pub fn into_active_model(self) -> (res: ActiveModel)
        ensures
            res == self.unchanged(),
    {
        ActiveModel {
            id: ActiveValue::Unchanged(self.id),
            delivery_method_id: ActiveValue::Unchanged(self.delivery_method_id),
            name: ActiveValue::Unchanged(self.name),
            price: ActiveValue::Unchanged(self.price),
            active: ActiveValue::Unchanged(self.active),
        }
    }
}


} // verus!
