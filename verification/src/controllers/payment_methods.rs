use vstd::prelude::*;
use crate::error::ApiError;
use crate::models::ActiveValue;
use crate::models::payment_methods::{ActiveModel, Model};
use crate::models::users;

verus! {

/// The fields a payment method is created or edited with; `name` and
/// `payment_gateway` are the stored text of their enumerations.
#[derive(Debug)]
pub struct PaymentMethodParams {
    pub name: String,
    pub description: Option<String>,
    pub expiry_time: i32,
    pub payment_gateway: Option<String>,
    pub active: bool,
}

impl PaymentMethodParams {
    /// Sets every column of the method but its id.
    pub fn update(&self, item: &mut ActiveModel)
        ensures
            *final(item) == (ActiveModel {
                name: ActiveValue::Changed(self.name),
                description: ActiveValue::Changed(self.description),
                expiry_time: ActiveValue::Changed(self.expiry_time),
                payment_gateway: ActiveValue::Changed(self.payment_gateway),
                active: ActiveValue::Changed(self.active),
                ..*old(item)
            }),
    {
        item.name = ActiveValue::Changed(self.name.clone());
        item.description = ActiveValue::Changed(self.description.clone());
        item.expiry_time = ActiveValue::Changed(self.expiry_time);
        item.payment_gateway = ActiveValue::Changed(self.payment_gateway.clone());
        item.active = ActiveValue::Changed(self.active);
    }
}

/// The refusal a non-superuser gets when changing payment methods.
pub open spec fn payment_method_refusal() -> Seq<char> {
    "You are not allowed to update payment methods. Only superuser can do that."@
}

/// Only superusers add, edit or delete payment methods.
pub fn superuser_only(user: &users::Model) -> (res: Result<(), ApiError>)
    ensures
        user.is_superuser ==> res is Ok,
        !user.is_superuser ==> (res matches Err(ApiError::BadRequest(m)) && m@
            == payment_method_refusal()),
{
    if user.is_superuser {
        Ok(())
    } else {
        Err(ApiError::BadRequest("You are not allowed to update payment methods. Only superuser can do that.".to_owned()))
    }
}

/// Adding a payment method: the superuser check, then the params as a new
/// row.
pub fn payment_method_add(user: &users::Model, params: &PaymentMethodParams) -> (res: Result<ActiveModel, ApiError>)
    ensures
        !user.is_superuser ==> (res matches Err(ApiError::BadRequest(m)) && m@
            == payment_method_refusal()),
        user.is_superuser ==> res == Ok::<ActiveModel, ApiError>(
            ActiveModel {
                id: ActiveValue::NotSet,
                name: ActiveValue::Changed(params.name),
                description: ActiveValue::Changed(params.description),
                expiry_time: ActiveValue::Changed(params.expiry_time),
                payment_gateway: ActiveValue::Changed(params.payment_gateway),
                active: ActiveValue::Changed(params.active),
            },
        ),
{
    superuser_only(user)?;
    let mut item = ActiveModel::new();
    params.update(&mut item);
    Ok(item)
}

/// The row a (superuser's) payment method edit writes: the stored method
/// with the params applied.
pub fn payment_method_update(item: Model, params: &PaymentMethodParams) -> (res: ActiveModel)
    ensures
        res == (ActiveModel {
            id: ActiveValue::Unchanged(item.id),
            name: ActiveValue::Changed(params.name),
            description: ActiveValue::Changed(params.description),
            expiry_time: ActiveValue::Changed(params.expiry_time),
            payment_gateway: ActiveValue::Changed(params.payment_gateway),
            active: ActiveValue::Changed(params.active),
        }),
{
    let mut active = item.into_active_model();
    params.update(&mut active);
    active
}

} // verus!
