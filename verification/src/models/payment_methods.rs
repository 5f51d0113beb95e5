use vstd::prelude::*;
use super::ActiveValue;

verus! {

/// A payment method; `name` and `payment_gateway` hold the stored text of their enumerations, as stored.
#[derive(Debug)]
pub struct Model {
    pub id: i32,
    pub name: String,
    pub description: Option<String>,
    pub expiry_time: i32,
    pub payment_gateway: Option<String>,
    pub active: bool,
}

/// The same row being written, column by column.
#[derive(Debug)]
pub struct ActiveModel {
    pub id: ActiveValue<i32>,
    pub name: ActiveValue<String>,
    pub description: ActiveValue<Option<String>>,
    pub expiry_time: ActiveValue<i32>,
    pub payment_gateway: ActiveValue<Option<String>>,
    pub active: ActiveValue<bool>,
}

impl ActiveModel {
    /// A row with no column set.
    pub fn new() -> (res: Self)
        ensures
            res.id is NotSet,
            res.name is NotSet,
            res.description is NotSet,
            res.expiry_time is NotSet,
            res.payment_gateway is NotSet,
            res.active is NotSet,
    {
        ActiveModel {
            id: ActiveValue::NotSet,
            name: ActiveValue::NotSet,
            description: ActiveValue::NotSet,
            expiry_time: ActiveValue::NotSet,
            payment_gateway: ActiveValue::NotSet,
            active: ActiveValue::NotSet,
        }
    }
}

impl Model {
    /// The stored row as a row to write back: every column unchanged.
    pub open spec fn unchanged(self) -> ActiveModel {
        ActiveModel {
            id: ActiveValue::Unchanged(self.id),
            name: ActiveValue::Unchanged(self.name),
            description: ActiveValue::Unchanged(self.description),
            expiry_time: ActiveValue::Unchanged(self.expiry_time),
            payment_gateway: ActiveValue::Unchanged(self.payment_gateway),
            active: ActiveValue::Unchanged(self.active),
        }
    }

    /// The stored row as a row to write back (see `unchanged`).
    pub fn into_active_model(self) -> (res: ActiveModel)
        ensures
            res == self.unchanged(),
    {
        ActiveModel {
            id: ActiveValue::Unchanged(self.id),
            name: ActiveValue::Unchanged(self.name),
            description: ActiveValue::Unchanged(self.description),
            expiry_time: ActiveValue::Unchanged(self.expiry_time),
            payment_gateway: ActiveValue::Unchanged(self.payment_gateway),
            active: ActiveValue::Unchanged(self.active),
        }
    }
}


} // verus!
