use vstd::prelude::*;
use rust_decimal::Decimal;
use crate::error::ApiError;
use crate::models::ActiveValue;
use crate::models::delivery_method_services::{ActiveModel, Model};
use crate::models::users;

verus! {

/// The fields a delivery service is created or edited with.
#[derive(Debug)]
pub struct Params {
    pub delivery_method_id: i32,
    pub name: String,
    pub price: Decimal,
    pub active: bool,
}

impl Params {
    /// Sets the service's method, name, price and active flag; its id stays.
    pub fn update(&self, item: &mut ActiveModel)
        ensures
            *final(item) == (ActiveModel {
                delivery_method_id: ActiveValue::Changed(self.delivery_method_id),
                name: ActiveValue::Changed(self.name),
                price: ActiveValue::Changed(self.price),
                active: ActiveValue::Changed(self.active),
                ..*old(item)
            }),
    {
        item.delivery_method_id = ActiveValue::Changed(self.delivery_method_id);
        item.name = ActiveValue::Changed(self.name.clone());
        item.price = ActiveValue::Changed(self.price);
        item.active = ActiveValue::Changed(self.active);
    }
}

/// What a user asks to do with delivery services.
#[derive(Debug, Clone, Copy, PartialEq, Eq, Structural)]
pub enum ServiceChange {
    Add,
    Update,
    Delete,
}

/// The refusal a non-superuser gets for each change.
pub open spec fn service_refusal(change: ServiceChange) -> Seq<char> {
    match change {
        ServiceChange::Add => "You are not allowed to add delivery service. Only superuser can do that."@,
        ServiceChange::Update => "You are not allowed to update delivery service. Only superuser can do that."@,
        ServiceChange::Delete => "You are not allowed to delete delivery service. Only superuser can do that."@,
    }
}

/// Only superusers change delivery services; anyone else gets a `BadRequest`
/// naming the change.
pub fn superuser_only(user: &users::Model, change: ServiceChange) -> (res: Result<(), ApiError>)
    ensures
        user.is_superuser ==> res is Ok,
        !user.is_superuser ==> (res matches Err(ApiError::BadRequest(m)) && m@ == service_refusal(change)),
{
    if user.is_superuser {
        return Ok(());
    }
    let message = match change {
        ServiceChange::Add => "You are not allowed to add delivery service. Only superuser can do that.",
        ServiceChange::Update => "You are not allowed to update delivery service. Only superuser can do that.",
        ServiceChange::Delete => "You are not allowed to delete delivery service. Only superuser can do that.",
    };
    Err(ApiError::BadRequest(message.to_owned()))
}

/// Adding a service: the superuser check, then the params as a new row.
pub fn delivery_method_service_add(user: &users::Model, params: &Params) -> (res: Result<ActiveModel, ApiError>)
    ensures
        !user.is_superuser ==> (res matches Err(ApiError::BadRequest(m)) && m@ == service_refusal(
            ServiceChange::Add,
        )),
        user.is_superuser ==> res == Ok::<ActiveModel, ApiError>(
            ActiveModel {
                id: ActiveValue::NotSet,
                delivery_method_id: ActiveValue::Changed(params.delivery_method_id),
                name: ActiveValue::Changed(params.name),
                price: ActiveValue::Changed(params.price),
                active: ActiveValue::Changed(params.active),
            },
        ),
{
    superuser_only(user, ServiceChange::Add)?;
    let mut item = ActiveModel::new();
    params.update(&mut item);
    Ok(item)
}

/// The row a (superuser's) service edit writes: the stored service with the
/// params applied.
pub fn delivery_method_service_update(item: Model, params: &Params) -> (res: ActiveModel)
    ensures
        res == (ActiveModel {
            id: ActiveValue::Unchanged(item.id),
            delivery_method_id: ActiveValue::Changed(params.delivery_method_id),
            name: ActiveValue::Changed(params.name),
            price: ActiveValue::Changed(params.price),
            active: ActiveValue::Changed(params.active),
        }),
{
    let mut active = item.into_active_model();
    params.update(&mut active);
    active
}

} // verus!
