use vstd::prelude::*;
use crate::error::ApiError;
use crate::models::ActiveValue;
use crate::models::carts::{ActiveModel, Model};
use crate::models::products::ProductSnapshot;
use crate::models::users;
use crate::views::base::BaseResponse;

verus! {

/// The product and quantity a cart line is created or edited with.
#[derive(Debug)]
pub struct CartPostParams {
    pub product_id: i32,
    pub qty: i32,
}

impl CartPostParams {
    /// Sets the line's product and quantity; its id and owner stay.
    pub fn update(&self, item: &mut ActiveModel)
        ensures
            *final(item) == (ActiveModel {
                product_id: ActiveValue::Changed(self.product_id),
                qty: ActiveValue::Changed(self.qty),
                ..*old(item)
            }),
    {
        item.product_id = ActiveValue::Changed(self.product_id);
        item.qty = ActiveValue::Changed(self.qty);
    }
}

/// The message of the refusal to put one's own product in one's cart.
pub open spec fn own_product_in_cart_message() -> Seq<char> {
    "You are not allowed to add your own products to the cart"@
}

/// Adding a product to the user's cart: `NotFound` when the product does not
/// exist, a `BadRequest` when the user sells it, and otherwise the new line
/// for the user with the params' product and quantity.
pub fn user_cart_add(user: &users::Model, product: Option<&ProductSnapshot>, params: &CartPostParams) -> (res: Result<ActiveModel, ApiError>)
    ensures
        product is None ==> res matches Err(ApiError::NotFound),
        product matches Some(p) && p.seller_id == user.id ==> (res matches Err(ApiError::BadRequest(m))
            && m@ == own_product_in_cart_message()),
        product matches Some(p) && p.seller_id != user.id ==> res == Ok::<ActiveModel, ApiError>(
            ActiveModel {
                id: ActiveValue::NotSet,
                user_id: ActiveValue::Changed(user.id),
                product_id: ActiveValue::Changed(params.product_id),
                qty: ActiveValue::Changed(params.qty),
            },
        ),
{
    let product = match product {
        Some(p) => p,
        None => {
            return Err(ApiError::NotFound);
        },
    };
    if product.seller_id == user.id {
        return Err(ApiError::BadRequest("You are not allowed to add your own products to the cart".to_owned()));
    }
    let mut item = ActiveModel::new();
    item.user_id = ActiveValue::Changed(user.id);
    params.update(&mut item);
    Ok(item)
}

/// A cart line the user may see or change: `NotFound` when there is no such
/// line, and also when it belongs to someone else.
pub fn owned_cart_item(user: &users::Model, item: Option<Model>) -> (res: Result<Model, ApiError>)
    ensures
        match item {
            Some(m) => if m.user_id == user.id {
                res == Ok::<Model, ApiError>(m)
            } else {
                res matches Err(ApiError::NotFound)
            },
            None => res matches Err(ApiError::NotFound),
        },
{
    match item {
        Some(m) => if m.user_id == user.id {
            Ok(m)
        } else {
            Err(ApiError::NotFound)
        },
        None => Err(ApiError::NotFound),
    }
}

/// Editing one of the user's cart lines: the checks of `owned_cart_item`,
/// then the stored line with the params applied.
pub fn user_cart_update(user: &users::Model, item: Option<Model>, params: &CartPostParams) -> (res: Result<ActiveModel, ApiError>)
    ensures
        match item {
            Some(m) => if m.user_id == user.id {
                res == Ok::<ActiveModel, ApiError>(
                    ActiveModel {
                        id: ActiveValue::Unchanged(m.id),
                        user_id: ActiveValue::Unchanged(m.user_id),
                        product_id: ActiveValue::Changed(params.product_id),
                        qty: ActiveValue::Changed(params.qty),
                    },
                )
            } else {
                res matches Err(ApiError::NotFound)
            },
            None => res matches Err(ApiError::NotFound),
        },
{
    let m = owned_cart_item(user, item)?;
    let mut active = m.into_active_model();
    params.update(&mut active);
    Ok(active)
}

/// The line removed by product: the user's line for that product, or a 404
/// "Cart not found!" when they have none.
pub fn load_item_by_product_id(item: Option<Model>) -> (res: Result<Model, ApiError>)
    ensures
        match item {
            Some(m) => res == Ok::<Model, ApiError>(m),
            None => res matches Err(ApiError::Custom { status, error, description }) && status == 404
                && error@ == "not_found"@ && description@ == "Cart not found!"@,
        },
{
    match item {
        Some(m) => Ok(m),
        None => Err(
            ApiError::Custom {
                status: 404,
                error: "not_found".to_owned(),
                description: "Cart not found!".to_owned(),
            },
        ),
    }
}

/// The answer after a line was removed by product.
pub fn user_cart_delete_by_product_id() -> (res: BaseResponse)
    ensures
        res.status@ == "success"@,
        res.message@ == "Cart delete successfully"@,
{
    BaseResponse::new(&"success".to_owned(), &"Cart delete successfully".to_owned())
}

} // verus!
