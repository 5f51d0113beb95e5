use vstd::prelude::*;
use crate::models::payment_methods;

verus! {

/// A payment method as the API shows it.
#[derive(Debug)]
pub struct PaymentMethodResponse {
    pub id: i32,
    pub name: String,
    pub description: Option<String>,
    pub expiry_time: i32,
    pub payment_gateway: Option<String>,
    pub active: bool,
}

impl PaymentMethodResponse {
    /// The payment method's columns, one for one.
    pub fn new(payment_method: &payment_methods::Model) -> (res: Self)
        ensures
            res.id == payment_method.id,
            res.name == payment_method.name,
            res.description == payment_method.description,
            res.expiry_time == payment_method.expiry_time,
            res.payment_gateway == payment_method.payment_gateway,
            res.active == payment_method.active,
    {
        PaymentMethodResponse {
            id: payment_method.id,
            name: payment_method.name.clone(),
            description: payment_method.description.clone(),
            expiry_time: payment_method.expiry_time,
            payment_gateway: payment_method.payment_gateway.clone(),
            active: payment_method.active,
        }
    }
}

} // verus!
