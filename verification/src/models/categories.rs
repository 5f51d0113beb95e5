use vstd::prelude::*;
use super::ActiveValue;

verus! {

/// A product category; top-level categories have no parent, as stored.
#[derive(Debug)]
pub struct Model {
    pub id: i32,
    pub name: String,
    pub parent_id: Option<i32>,
}

/// The same row being written, column by column.
#[derive(Debug)]
pub struct ActiveModel {
    pub id: ActiveValue<i32>,
    pub name: ActiveValue<String>,
    pub parent_id: ActiveValue<Option<i32>>,
}

impl ActiveModel {
    /// A row with no column set.
    pub fn new() -> (res: Self)
        ensures
            res.id is NotSet,
            res.name is NotSet,
            res.parent_id is NotSet,
    {
        ActiveModel {
            id: ActiveValue::NotSet,
            name: ActiveValue::NotSet,
            parent_id: ActiveValue::NotSet,
        }
    }
}

impl Model {
    /// The stored row as a row to write back: every column unchanged.
    pub open spec fn unchanged(self) -> ActiveModel {
        ActiveModel {
            id: ActiveValue::Unchanged(self.id),
            name: ActiveValue::Unchanged(self.name),
            parent_id: ActiveValue::Unchanged(self.parent_id),
        }
    }

    /// The stored row as a row to write back (see `unchanged`).
    pub fn into_active_model(self) -> (res: ActiveModel)
        ensures
            res == self.unchanged(),
    {
        ActiveModel {
            id: ActiveValue::Unchanged(self.id),
            name: ActiveValue::Unchanged(self.name),
            parent_id: ActiveValue::Unchanged(self.parent_id),
        }
    }
}


} // verus!
