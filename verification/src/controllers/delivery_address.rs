use vstd::prelude::*;
use crate::error::ApiError;
use crate::models::ActiveValue;
use crate::models::delivery_addresses::{ActiveModel, Model};
use crate::models::users;

verus! {

/// The fields a delivery address is created or edited with. `user_id` is
/// read-only: the owner is always the signed-in user.
#[derive(Debug)]
pub struct DeliveryAddressParams {
    pub user_id: Option<i32>,
    pub name: String,
    pub phone: String,
    pub email: String,
    pub city: String,
    pub postal_code: String,
    pub address: String,
    pub notes: Option<String>,
    pub latitude: Option<String>,
    pub longitude: Option<String>,
}

impl DeliveryAddressParams {
    /// Sets every column of the address but its id and owner.
    pub fn update(&self, item: &mut ActiveModel)
        ensures
            *final(item) == (ActiveModel {
                name: ActiveValue::Changed(self.name),
                phone: ActiveValue::Changed(self.phone),
                email: ActiveValue::Changed(self.email),
                city: ActiveValue::Changed(self.city),
                postal_code: ActiveValue::Changed(self.postal_code),
                address: ActiveValue::Changed(self.address),
                notes: ActiveValue::Changed(self.notes),
                latitude: ActiveValue::Changed(self.latitude),
                longitude: ActiveValue::Changed(self.longitude),
                ..*old(item)
            }),
    {
        item.name = ActiveValue::Changed(self.name.clone());
        item.phone = ActiveValue::Changed(self.phone.clone());
        item.email = ActiveValue::Changed(self.email.clone());
        item.city = ActiveValue::Changed(self.city.clone());
        item.postal_code = ActiveValue::Changed(self.postal_code.clone());
        item.address = ActiveValue::Changed(self.address.clone());
        item.notes = ActiveValue::Changed(self.notes.clone());
        item.latitude = ActiveValue::Changed(self.latitude.clone());
        item.longitude = ActiveValue::Changed(self.longitude.clone());
    }
}

/// The row `delivery_address_add` inserts: the params, owned by the user.
pub fn delivery_address_add(user: &users::Model, params: &DeliveryAddressParams) -> (res: ActiveModel)
    ensures
        res == (ActiveModel {
            id: ActiveValue::NotSet,
            user_id: ActiveValue::Changed(user.id),
            name: ActiveValue::Changed(params.name),
            phone: ActiveValue::Changed(params.phone),
            email: ActiveValue::Changed(params.email),
            city: ActiveValue::Changed(params.city),
            postal_code: ActiveValue::Changed(params.postal_code),
            address: ActiveValue::Changed(params.address),
            notes: ActiveValue::Changed(params.notes),
            latitude: ActiveValue::Changed(params.latitude),
            longitude: ActiveValue::Changed(params.longitude),
        }),
{
    let mut item = ActiveModel::new();
    item.user_id = ActiveValue::Changed(user.id);
    params.update(&mut item);
    item
}

/// The refusal when the user has no address with the requested id: a 404
/// "Delivery address not found", the same whether the id is unknown or
/// another user's.
pub open spec fn address_not_found(e: ApiError) -> bool {
    e matches ApiError::Custom { status, error, description } && status == 404 && error@ == "not_found"@
        && description@ == "Delivery address not found"@
}

fn address_not_found_error() -> (e: ApiError)
    ensures
        address_not_found(e),
{
    ApiError::Custom {
        status: 404,
        error: "not_found".to_owned(),
        description: "Delivery address not found".to_owned(),
    }
}

/// The user's address with the requested id, or the 404 of
/// `address_not_found` when the lookup (by id and owner) found none.
pub fn owned_delivery_address(found: Option<Model>) -> (res: Result<Model, ApiError>)
    ensures
        match found {
            Some(m) => res == Ok::<Model, ApiError>(m),
            None => res matches Err(e) && address_not_found(e),
        },
{
    match found {
        Some(m) => Ok(m),
        None => Err(address_not_found_error()),
    }
}

/// Editing one of the user's addresses: the refusal of
/// `owned_delivery_address`, or the stored address with the params applied.
pub fn delivery_address_update(found: Option<Model>, params: &DeliveryAddressParams) -> (res: Result<ActiveModel, ApiError>)
    ensures
        match found {
            Some(m) => res == Ok::<ActiveModel, ApiError>(
                ActiveModel {
                    id: ActiveValue::Unchanged(m.id),
                    user_id: ActiveValue::Unchanged(m.user_id),
                    name: ActiveValue::Changed(params.name),
                    phone: ActiveValue::Changed(params.phone),
                    email: ActiveValue::Changed(params.email),
                    city: ActiveValue::Changed(params.city),
                    postal_code: ActiveValue::Changed(params.postal_code),
                    address: ActiveValue::Changed(params.address),
                    notes: ActiveValue::Changed(params.notes),
                    latitude: ActiveValue::Changed(params.latitude),
                    longitude: ActiveValue::Changed(params.longitude),
                },
            ),
            None => res matches Err(e) && address_not_found(e),
        },
{
    let m = owned_delivery_address(found)?;
    let mut item = m.into_active_model();
    params.update(&mut item);
    Ok(item)
}

} // verus!
