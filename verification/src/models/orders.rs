use vstd::prelude::*;
use super::ActiveValue;
use rust_decimal::Decimal;

verus! {

/// Where an order stands. The library's rules name the statuses below;
/// `Other` stands for any stored status they do not act on.
#[derive(Debug, Clone, Copy, PartialEq, Eq, Structural)]
pub enum OrderStatus {
    AwaitingPayment,
    Shipped,
    Completed,
    Cancelled,
    Returned,
    Other,
}

/// The payment method recorded with an order when it is placed: its name,
/// how long the buyer has to pay, and its gateway ("-" when it has none).
#[derive(Debug)]
pub struct PaymentMethodDetail {
    pub name: String,
    pub expiry_time: i32,
    pub payment_gateway: String,
}

/// An order, as stored.
#[derive(Debug)]
pub struct Model {
    pub id: i32,
    pub buyer_id: i32,
    pub order_number: String,
    pub final_price: Decimal,
    pub delivery_address_id: Option<i32>,
    pub delivery_address_detail: Option<String>,
    pub payment_method_id: i32,
    pub status: OrderStatus,
}

/// The same row being written, column by column.
#[derive(Debug)]
pub struct ActiveModel {
    pub id: ActiveValue<i32>,
    pub buyer_id: ActiveValue<i32>,
    pub order_number: ActiveValue<String>,
    pub final_price: ActiveValue<Decimal>,
    pub delivery_address_id: ActiveValue<Option<i32>>,
    pub delivery_address_detail: ActiveValue<Option<String>>,
    pub payment_method_id: ActiveValue<i32>,
    pub status: ActiveValue<OrderStatus>,
    pub payment_method_detail: ActiveValue<Option<PaymentMethodDetail>>,
}

impl ActiveModel {
    /// A row with no column set.
    pub fn new() -> (res: Self)
        ensures
            res.id is NotSet,
            res.buyer_id is NotSet,
            res.order_number is NotSet,
            res.final_price is NotSet,
            res.delivery_address_id is NotSet,
            res.delivery_address_detail is NotSet,
            res.payment_method_id is NotSet,
            res.status is NotSet,
            res.payment_method_detail is NotSet,
    {
        ActiveModel {
            id: ActiveValue::NotSet,
            buyer_id: ActiveValue::NotSet,
            order_number: ActiveValue::NotSet,
            final_price: ActiveValue::NotSet,
            delivery_address_id: ActiveValue::NotSet,
            delivery_address_detail: ActiveValue::NotSet,
            payment_method_id: ActiveValue::NotSet,
            status: ActiveValue::NotSet,
            payment_method_detail: ActiveValue::NotSet,
        }
    }
}

impl Model {
    /// The stored row as a row to write back: every column unchanged.
    pub open spec fn unchanged(self) -> ActiveModel {
        ActiveModel {
            id: ActiveValue::Unchanged(self.id),
            buyer_id: ActiveValue::Unchanged(self.buyer_id),
            order_number: ActiveValue::Unchanged(self.order_number),
            final_price: ActiveValue::Unchanged(self.final_price),
            delivery_address_id: ActiveValue::Unchanged(self.delivery_address_id),
            delivery_address_detail: ActiveValue::Unchanged(self.delivery_address_detail),
            payment_method_id: ActiveValue::Unchanged(self.payment_method_id),
            status: ActiveValue::Unchanged(self.status),
            payment_method_detail: ActiveValue::NotSet,
        }
    }

    /// The stored row as a row to write back (see `unchanged`).
    pub fn into_active_model(self) -> (res: ActiveModel)
        ensures
            res == self.unchanged(),
    {
        ActiveModel {
            id: ActiveValue::Unchanged(self.id),
            buyer_id: ActiveValue::Unchanged(self.buyer_id),
            order_number: ActiveValue::Unchanged(self.order_number),
            final_price: ActiveValue::Unchanged(self.final_price),
            delivery_address_id: ActiveValue::Unchanged(self.delivery_address_id),
            delivery_address_detail: ActiveValue::Unchanged(self.delivery_address_detail),
            payment_method_id: ActiveValue::Unchanged(self.payment_method_id),
            status: ActiveValue::Unchanged(self.status),
            payment_method_detail: ActiveValue::NotSet,
        }
    }
}


impl ActiveModel {
    /// The order marked completed (the buyer confirmed receipt).
    pub fn set_status_completed(self) -> (res: ActiveModel)
        ensures
            res == (ActiveModel { status: ActiveValue::Changed(OrderStatus::Completed), ..self }),
    {
        ActiveModel { status: ActiveValue::Changed(OrderStatus::Completed), ..self }
    }

    /// The order marked cancelled.
    pub fn set_status_cancelled(self) -> (res: ActiveModel)
        ensures
            res == (ActiveModel { status: ActiveValue::Changed(OrderStatus::Cancelled), ..self }),
    {
        ActiveModel { status: ActiveValue::Changed(OrderStatus::Cancelled), ..self }
    }

    /// The order marked returned.
    pub fn set_status_returned(self) -> (res: ActiveModel)
        ensures
            res == (ActiveModel { status: ActiveValue::Changed(OrderStatus::Returned), ..self }),
    {
        ActiveModel { status: ActiveValue::Changed(OrderStatus::Returned), ..self }
    }
}

} // verus!
