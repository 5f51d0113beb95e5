use vstd::prelude::*;
use super::ActiveValue;

verus! {

/// A delivery address of a user, as stored.
#[derive(Debug)]
pub struct Model {
    pub id: i32,
    pub user_id: i32,
    pub name: String,
    pub phone: String,
    pub email: String,
    pub city: String,
    pub postal_code: String,
    pub address: String,
    pub notes: Option<String>,
    pub latitude: Option<String>,
    pub longitude: Option<String>,
}

/// The same row being written, column by column.
#[derive(Debug)]
pub struct ActiveModel {
    pub id: ActiveValue<i32>,
    pub user_id: ActiveValue<i32>,
    pub name: ActiveValue<String>,
    pub phone: ActiveValue<String>,
    pub email: ActiveValue<String>,
    pub city: ActiveValue<String>,
    pub postal_code: ActiveValue<String>,
    pub address: ActiveValue<String>,
    pub notes: ActiveValue<Option<String>>,
    pub latitude: ActiveValue<Option<String>>,
    pub longitude: ActiveValue<Option<String>>,
}

impl ActiveModel {
    /// A row with no column set.
    pub fn new() -> (res: Self)
        ensures
            res.id is NotSet,
            res.user_id is NotSet,
            res.name is NotSet,
            res.phone is NotSet,
            res.email is NotSet,
            res.city is NotSet,
            res.postal_code is NotSet,
            res.address is NotSet,
            res.notes is NotSet,
            res.latitude is NotSet,
            res.longitude is NotSet,
    {
        ActiveModel {
            id: ActiveValue::NotSet,
            user_id: ActiveValue::NotSet,
            name: ActiveValue::NotSet,
            phone: ActiveValue::NotSet,
            email: ActiveValue::NotSet,
            city: ActiveValue::NotSet,
            postal_code: ActiveValue::NotSet,
            address: ActiveValue::NotSet,
            notes: ActiveValue::NotSet,
            latitude: ActiveValue::NotSet,
            longitude: ActiveValue::NotSet,
        }
    }
}

impl Model {
    /// The stored row as a row to write back: every column unchanged.
    pub open spec fn unchanged(self) -> ActiveModel {
        ActiveModel {
            id: ActiveValue::Unchanged(self.id),
            user_id: ActiveValue::Unchanged(self.user_id),
            name: ActiveValue::Unchanged(self.name),
            phone: ActiveValue::Unchanged(self.phone),
            email: ActiveValue::Unchanged(self.email),
            city: ActiveValue::Unchanged(self.city),
            postal_code: ActiveValue::Unchanged(self.postal_code),
            address: ActiveValue::Unchanged(self.address),
            notes: ActiveValue::Unchanged(self.notes),
            latitude: ActiveValue::Unchanged(self.latitude),
            longitude: ActiveValue::Unchanged(self.longitude),
        }
    }

    /// The stored row as a row to write back (see `unchanged`).
    pub fn into_active_model(self) -> (res: ActiveModel)
        ensures
            res == self.unchanged(),
    {
        ActiveModel {
            id: ActiveValue::Unchanged(self.id),
            user_id: ActiveValue::Unchanged(self.user_id),
            name: ActiveValue::Unchanged(self.name),
            phone: ActiveValue::Unchanged(self.phone),
            email: ActiveValue::Unchanged(self.email),
            city: ActiveValue::Unchanged(self.city),
            postal_code: ActiveValue::Unchanged(self.postal_code),
            address: ActiveValue::Unchanged(self.address),
            notes: ActiveValue::Unchanged(self.notes),
            latitude: ActiveValue::Unchanged(self.latitude),
            longitude: ActiveValue::Unchanged(self.longitude),
        }
    }
}


} // verus!
