use vstd::prelude::*;
use crate::error::ApiError;
use crate::models::ActiveValue;
use crate::models::orders::{self, OrderStatus};
use crate::controllers::order::can_confirm;

verus! {

/// Whether a seller may cancel the order: one of its lines is theirs and it
/// is still awaiting payment.
pub open spec fn can_cancel(sells_an_item: bool, order: orders::Model) -> bool {
    sells_an_item && order.status == OrderStatus::AwaitingPayment
}

/// The refusal when the seller has no such order: a 404 "Order not found",
/// the same whether the number is unknown or the order none of theirs.
pub open spec fn order_not_found(e: ApiError) -> bool {
    e matches ApiError::Custom { status, error, description } && status == 404 && error@ == "not_found"@
        && description@ == "Order not found"@
}

fn order_not_found_error() -> (e: ApiError)
    ensures
        order_not_found(e),
{
    ApiError::Custom { status: 404, error: "not_found".to_owned(), description: "Order not found".to_owned() }
}

/// A seller cancelling an order by its number. `order` is the order with
/// that number, `sells_an_item` whether one of its lines is the seller's.
/// Unknown orders and orders with none of the seller's lines are both
/// the 404 of `order_not_found`; an order past awaiting payment is refused; otherwise
/// the stored order is marked cancelled.
pub fn seller_order_cancel(order: Option<orders::Model>, sells_an_item: bool) -> (res: Result<orders::ActiveModel, ApiError>)
    ensures
        match order {
            None => res matches Err(e) && order_not_found(e),
            Some(o) => if !sells_an_item {
                res matches Err(e) && order_not_found(e)
            } else if o.status != OrderStatus::AwaitingPayment {
                res matches Err(ApiError::BadRequest(m)) && m@
                    == "Only orders awaiting payment can be cancelled"@
            } else {
                res == Ok::<orders::ActiveModel, ApiError>(
                    orders::ActiveModel { status: ActiveValue::Changed(OrderStatus::Cancelled), ..o.unchanged() },
                )
            },
        },
        res is Ok <==> (order matches Some(o) && can_cancel(sells_an_item, o)),
{
    let order = match order {
        Some(o) => o,
        None => {
            return Err(order_not_found_error());
        },
    };
    if !sells_an_item {
        return Err(order_not_found_error());
    }
    if order.status == OrderStatus::AwaitingPayment {
        return Ok(order.into_active_model().set_status_cancelled());
    }
    Err(ApiError::BadRequest("Only orders awaiting payment can be cancelled".to_owned()))
}

/// The buyer's confirmation and a seller's cancellation never both apply to
/// the same order (one needs it shipped, the other awaiting payment), and an
/// order that is completed, cancelled or returned admits neither.
pub proof fn law_order_moves_are_exclusive(user_id: i32, sells_an_item: bool, order: orders::Model)
    ensures
        !(can_confirm(user_id, order) && can_cancel(sells_an_item, order)),
        order.status == OrderStatus::Completed || order.status == OrderStatus::Cancelled
            || order.status == OrderStatus::Returned ==> !can_confirm(user_id, order) && !can_cancel(
            sells_an_item,
            order,
        ),
{
}

} // verus!
