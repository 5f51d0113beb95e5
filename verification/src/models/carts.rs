use vstd::prelude::*;
use super::ActiveValue;

verus! {

/// A product in a user's cart, as stored.
#[derive(Debug)]
pub struct Model {
    pub id: i32,
    pub user_id: i32,
    pub product_id: i32,
    pub qty: i32,
}

/// The same row being written, column by column.
#[derive(Debug)]
pub struct ActiveModel {
    pub id: ActiveValue<i32>,
    pub user_id: ActiveValue<i32>,
    pub product_id: ActiveValue<i32>,
    pub qty: ActiveValue<i32>,
}

impl ActiveModel {
    /// A row with no column set.
    pub fn new() -> (res: Self)
        ensures
            res.id is NotSet,
            res.user_id is NotSet,
            res.product_id is NotSet,
            res.qty is NotSet,
    {
        ActiveModel {
            id: ActiveValue::NotSet,
            user_id: ActiveValue::NotSet,
            product_id: ActiveValue::NotSet,
            qty: ActiveValue::NotSet,
        }
    }
}

impl Model {
    /// The stored row as a row to write back: every column unchanged.
    pub open spec fn unchanged(self) -> ActiveModel {
        ActiveModel {
            id: ActiveValue::Unchanged(self.id),
            user_id: ActiveValue::Unchanged(self.user_id),
            product_id: ActiveValue::Unchanged(self.product_id),
            qty: ActiveValue::Unchanged(self.qty),
        }
    }

    /// The stored row as a row to write back (see `unchanged`).
    pub fn into_active_model(self) -> (res: ActiveModel)
        ensures
            res == self.unchanged(),
    {
        ActiveModel {
            id: ActiveValue::Unchanged(self.id),
            user_id: ActiveValue::Unchanged(self.user_id),
            product_id: ActiveValue::Unchanged(self.product_id),
            qty: ActiveValue::Unchanged(self.qty),
        }
    }
}


} // verus!
