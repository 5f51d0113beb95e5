use vstd::prelude::*;
use super::ActiveValue;

verus! {

/// A material, as stored.
#[derive(Debug)]
pub struct Model {
    pub id: i32,
    pub name: String,
    pub code: Option<String>,
    pub is_active: bool,
}

/// The same row being written, column by column.
#[derive(Debug)]
pub struct ActiveModel {
    pub id: ActiveValue<i32>,
    pub name: ActiveValue<String>,
    pub code: ActiveValue<Option<String>>,
    pub is_active: ActiveValue<bool>,
}

impl ActiveModel {
    /// A row with no column set.
    pub fn new() -> (res: Self)
        ensures
            res.id is NotSet,
            res.name is NotSet,
            res.code is NotSet,
            res.is_active is NotSet,
    {
        ActiveModel {
            id: ActiveValue::NotSet,
            name: ActiveValue::NotSet,
            code: ActiveValue::NotSet,
            is_active: ActiveValue::NotSet,
        }
    }
}

impl Model {
    /// The stored row as a row to write back: every column unchanged.
    pub open spec fn unchanged(self) -> ActiveModel {
        ActiveModel {
            id: ActiveValue::Unchanged(self.id),
            name: ActiveValue::Unchanged(self.name),
            code: ActiveValue::Unchanged(self.code),
            is_active: ActiveValue::Unchanged(self.is_active),
        }
    }

    /// The stored row as a row to write back (see `unchanged`).
    pub fn into_active_model(self) -> (res: ActiveModel)
        ensures
            res == self.unchanged(),
    {
        ActiveModel {
            id: ActiveValue::Unchanged(self.id),
            name: ActiveValue::Unchanged(self.name),
            code: ActiveValue::Unchanged(self.code),
            is_active: ActiveValue::Unchanged(self.is_active),
        }
    }
}


} // verus!
