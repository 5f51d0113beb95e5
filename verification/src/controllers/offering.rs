use vstd::prelude::*;
use rust_decimal::Decimal;
use crate::error::ApiError;
use crate::models::ActiveValue;
use crate::models::offerings::{ActiveModel, Model};
use crate::models::products::ProductSnapshot;
use crate::models::users;

verus! {

/// A buyer's price offer on a product; `action` is the stored text of the
/// offer's action type, `firebase_id` the id of the chat it belongs to.
#[derive(Debug)]
pub struct AddNegotiationProductParams {
    pub action: Option<String>,
    pub offer: Decimal,
    pub firebase_id: String,
}

/// The seller's answer to an offer: the stored text of its new status.
#[derive(Debug)]
pub struct DoParams {
    pub status: Option<String>,
}

impl DoParams {
    /// Sets the offer's status; nothing else changes.
    pub fn update(&self, offering: &mut ActiveModel)
        ensures
            *final(offering) == (ActiveModel {
                status: ActiveValue::Changed(self.status),
                ..*old(offering)
            }),
    {
        offering.status = ActiveValue::Changed(self.status.clone());
    }
}

/// Making an offer on a product: `NotFound` when the product does not exist;
/// otherwise the new offer by the user, with the product's id, title,
/// condition and price copied and the offered price, action and chat id from
/// the params.
pub fn add_negotiation_product(
    user: &users::Model,
    product: Option<&ProductSnapshot>,
    params: &AddNegotiationProductParams,
) -> (res: Result<ActiveModel, ApiError>)
    ensures
        match product {
            None => res matches Err(ApiError::NotFound),
            Some(p) => res == Ok::<ActiveModel, ApiError>(
                ActiveModel {
                    id: ActiveValue::NotSet,
                    product_id: ActiveValue::Changed(p.id),
                    user_id: ActiveValue::Changed(user.id),
                    product_name: ActiveValue::Changed(p.title),
                    product_condition: ActiveValue::Changed(p.condition),
                    product_price: ActiveValue::Changed(p.price),
                    offer_price: ActiveValue::Changed(params.offer),
                    status: ActiveValue::NotSet,
                    action_type: ActiveValue::Changed(params.action),
                    firebase_id: ActiveValue::Changed(Some(params.firebase_id)),
                },
            ),
        },
{
    let product = match product {
        Some(p) => p,
        None => {
            return Err(ApiError::NotFound);
        },
    };
    let mut offering = ActiveModel::new();
    offering.product_id = ActiveValue::Changed(product.id);
    offering.user_id = ActiveValue::Changed(user.id);
    offering.product_name = ActiveValue::Changed(product.title.clone());
    offering.product_condition = ActiveValue::Changed(product.condition.clone());
    offering.product_price = ActiveValue::Changed(product.price);
    offering.offer_price = ActiveValue::Changed(params.offer);
    offering.action_type = ActiveValue::Changed(params.action.clone());
    offering.firebase_id = ActiveValue::Changed(Some(params.firebase_id.clone()));
    Ok(offering)
}

/// Answering an offer: `NotFound` when there is no such offer; otherwise the
/// stored offer with the new status (the caller stamps the update time).
pub fn do_negotiation_product(offering: Option<Model>, params: &DoParams) -> (res: Result<ActiveModel, ApiError>)
    ensures
        match offering {
            None => res matches Err(ApiError::NotFound),
            Some(o) => res == Ok::<ActiveModel, ApiError>(
                ActiveModel { status: ActiveValue::Changed(params.status), ..o.unchanged() },
            ),
        },
{
    let o = crate::models::found(offering)?;
    let mut active = o.into_active_model();
    params.update(&mut active);
    Ok(active)
}

} // verus!
