use vstd::prelude::*;
use super::ActiveValue;

verus! {

/// An image of a product; `image` is its storage key, as stored.
#[derive(Debug)]
pub struct Model {
    pub id: i32,
    pub product_id: i32,
    pub image: String,
}

/// The same row being written, column by column.
#[derive(Debug)]
pub struct ActiveModel {
    pub id: ActiveValue<i32>,
    pub product_id: ActiveValue<i32>,
    pub image: ActiveValue<String>,
}

impl ActiveModel {
    /// A row with no column set.
    pub fn new() -> (res: Self)
        ensures
            res.id is NotSet,
            res.product_id is NotSet,
            res.image is NotSet,
    {
        ActiveModel {
            id: ActiveValue::NotSet,
            product_id: ActiveValue::NotSet,
            image: ActiveValue::NotSet,
        }
    }
}

impl Model {
    /// The stored row as a row to write back: every column unchanged.
    pub open spec fn unchanged(self) -> ActiveModel {
        ActiveModel {
            id: ActiveValue::Unchanged(self.id),
            product_id: ActiveValue::Unchanged(self.product_id),
            image: ActiveValue::Unchanged(self.image),
        }
    }

    /// The stored row as a row to write back (see `unchanged`).
    pub fn into_active_model(self) -> (res: ActiveModel)
        ensures
            res == self.unchanged(),
    {
        ActiveModel {
            id: ActiveValue::Unchanged(self.id),
            product_id: ActiveValue::Unchanged(self.product_id),
            image: ActiveValue::Unchanged(self.image),
        }
    }
}


} // verus!
