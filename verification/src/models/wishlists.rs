use vstd::prelude::*;
use super::ActiveValue;

verus! {

/// A product on a user's wishlist; removing it only marks it deleted, as stored.
#[derive(Debug)]
pub struct Model {
    pub id: i32,
    pub user_id: i32,
    pub product_id: i32,
    pub is_deleted: bool,
}

/// The same row being written, column by column.
#[derive(Debug)]
pub struct ActiveModel {
    pub id: ActiveValue<i32>,
    pub user_id: ActiveValue<i32>,
    pub product_id: ActiveValue<i32>,
    pub is_deleted: ActiveValue<bool>,
}

impl ActiveModel {
    /// A row with no column set.
    pub fn new() -> (res: Self)
        ensures
            res.id is NotSet,
            res.user_id is NotSet,
            res.product_id is NotSet,
            res.is_deleted is NotSet,
    {
        ActiveModel {
            id: ActiveValue::NotSet,
            user_id: ActiveValue::NotSet,
            product_id: ActiveValue::NotSet,
            is_deleted: ActiveValue::NotSet,
        }
    }
}

impl Model {
    /// The stored row as a row to write back: every column unchanged.
    pub open spec fn unchanged(self) -> ActiveModel {
        ActiveModel {
            id: ActiveValue::Unchanged(self.id),
            user_id: ActiveValue::Unchanged(self.user_id),
            product_id: ActiveValue::Unchanged(self.product_id),
            is_deleted: ActiveValue::Unchanged(self.is_deleted),
        }
    }

    /// The stored row as a row to write back (see `unchanged`).
    pub fn into_active_model(self) -> (res: ActiveModel)
        ensures
            res == self.unchanged(),
    {
        ActiveModel {
            id: ActiveValue::Unchanged(self.id),
            user_id: ActiveValue::Unchanged(self.user_id),
            product_id: ActiveValue::Unchanged(self.product_id),
            is_deleted: ActiveValue::Unchanged(self.is_deleted),
        }
    }
}


/// The entry with its deleted mark set to `deleted`; nothing else changes.
pub open spec fn marked(a: ActiveModel, deleted: bool) -> ActiveModel {
    ActiveModel { is_deleted: ActiveValue::Changed(deleted), ..a }
}

/// Only the last mark counts: taking an entry off the wishlist and putting
/// it back leaves it as putting it back alone does, with every other column
/// as it was.
pub proof fn law_last_mark_wins(a: ActiveModel, first: bool, second: bool)
    ensures
        marked(marked(a, first), second) == marked(a, second),
        marked(a, second).id == a.id && marked(a, second).user_id == a.user_id && marked(
            a,
            second,
        ).product_id == a.product_id,
{
}

impl ActiveModel {
    /// The wishlist entry marked deleted; nothing else changes.
    pub fn set_wishlist_deleted(self) -> (res: ActiveModel)
        ensures
            res == marked(self, true),
    {
        ActiveModel { is_deleted: ActiveValue::Changed(true), ..self }
    }

    /// The wishlist entry marked present again; nothing else changes.
    pub fn set_wishlist_un_deleted(self) -> (res: ActiveModel)
        ensures
            res == marked(self, false),
    {
        ActiveModel { is_deleted: ActiveValue::Changed(false), ..self }
    }
}

} // verus!
