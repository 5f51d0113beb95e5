use vstd::prelude::*;
use rust_decimal::Decimal;
use crate::error::ApiError;
use crate::models::ActiveValue;
use crate::models::{delivery_addresses, order_items, orders, payment_methods, users};
use crate::models::orders::{OrderStatus, PaymentMethodDetail};
use crate::models::products::ProductSnapshot;
use crate::text::push_char;
use rand::Rng;

verus! {

/// The characters order numbers are drawn from: 'A'..='Z' then '0'..='9'.
pub open spec fn order_number_char(i: nat) -> char {
    if i < 26 {
        (65 + i) as char
    } else {
        (48 + (i - 26)) as char
    }
}

/// Whether `c` may appear in an order number.
pub open spec fn is_order_number_char(c: char) -> bool {
    ('A' <= c && c <= 'Z') || ('0' <= c && c <= '9')
}

/// The draw-to-character map of order numbers is one to one onto the whole
/// 36-character set: every letter 'A'..='Z' and digit '0'..='9' is the
/// character of exactly one draw below 36, and nothing else is.
pub proof fn law_order_number_chars_cover_the_charset(c: char, i: nat, j: nat)
    ensures
        is_order_number_char(c) ==> exists|k: nat| k < 36 && #[trigger] order_number_char(k) == c,
        i < 36 ==> is_order_number_char(order_number_char(i)),
        i < 36 && j < 36 && order_number_char(i) == order_number_char(j) ==> i == j,
{
    if is_order_number_char(c) {
        let k: nat = if 'A' <= c && c <= 'Z' {
            (c as int - 65) as nat
        } else {
            (c as int - 48 + 26) as nat
        };
        assert(order_number_char(k) as int == c as int);
    }
    if i < 36 && j < 36 && order_number_char(i) == order_number_char(j) {
        assert(order_number_char(i) as int == order_number_char(j) as int);
    }
}

/// `rand::rng().random_range(0..bound)`: an index drawn at random below
/// `bound`. Its value is chance; only the range is claimed.
#[verifier::external_body]
fn random_below(bound: usize) -> (res: usize)
    requires
        bound > 0,
    ensures
        res < bound,
{
    rand::rng().random_range(0..bound)
}

fn charset_char(i: usize) -> (c: char)
    requires
        i < 36,
    ensures
        c == order_number_char(i as nat),
        is_order_number_char(c),
{
    if i < 26 {
        let b: u8 = 65u8 + (i as u8);
        b as char
    } else {
        let b: u8 = 48u8 + ((i - 26) as u8);
        b as char
    }
}

/// A random string of `length` characters, each drawn from 'A'..='Z' and
/// '0'..='9'; used as an order number.
pub fn generate_custom_string(length: usize) -> (res: String)
    ensures
        res@.len() == length,
        forall|i: int| 0 <= i < length ==> is_order_number_char(#[trigger] res@[i]),
{
    let mut res = String::new();
    let mut n: usize = 0;
    while n < length
        invariant
            n <= length,
            res@.len() == n,
            forall|i: int| 0 <= i < n ==> is_order_number_char(#[trigger] res@[i]),
        decreases length - n,
    {
        let idx = random_below(36);
        let c = charset_char(idx);
        push_char(&mut res, c);
        n = n + 1;
    }
    res
}

/// What an order is placed with. The buyer, number, delivery detail,
/// payment detail and status are filled in by the handler, not taken from
/// the request.
#[derive(Debug)]
pub struct OrderParams {
    pub final_price: Decimal,
    pub delivery_address_id: Option<i32>,
    pub payment_method_id: i32,
    pub product_id: i32,
}

impl OrderParams {
    /// Sets the order's price, delivery address and payment method; nothing
    /// else changes.
    pub fn update(&self, item: &mut orders::ActiveModel)
        ensures
            *final(item) == (orders::ActiveModel {
                final_price: ActiveValue::Changed(self.final_price),
                delivery_address_id: ActiveValue::Changed(self.delivery_address_id),
                payment_method_id: ActiveValue::Changed(self.payment_method_id),
                ..*old(item)
            }),
    {
        item.final_price = ActiveValue::Changed(self.final_price);
        item.delivery_address_id = ActiveValue::Changed(self.delivery_address_id);
        item.payment_method_id = ActiveValue::Changed(self.payment_method_id);
    }
}

/// How many units one order buys.
pub const ORDER_QTY: i32 = 1;

/// The length of an order number.
pub const ORDER_NUMBER_LEN: usize = 10;

/// An order is refused while the product has no stock left.
pub fn check_stock(product: &ProductSnapshot) -> (res: Result<(), ApiError>)
    ensures
        product.stock > 0 ==> res is Ok,
        product.stock <= 0 ==> (res matches Err(ApiError::BadRequest(m)) && m@
            == "Product is out of stock"@),
{
    if product.stock <= 0 {
        return Err(ApiError::BadRequest("Product is out of stock".to_owned()));
    }
    Ok(())
}

/// The delivery address an order names, when it names one: a positive id.
pub open spec fn delivery_lookup(params: OrderParams) -> Option<i32> {
    match params.delivery_address_id {
        Some(d) if d > 0 => Some(d),
        _ => None,
    }
}

/// The delivery address to look up for an order (see `delivery_lookup`).
pub fn delivery_address_lookup(params: &OrderParams) -> (res: Option<i32>)
    ensures
        res == delivery_lookup(*params),
{
    match params.delivery_address_id {
        Some(d) if d > 0 => Some(d),
        _ => None,
    }
}

/// What `serde_json` writes for a JSON object whose members are the given
/// keys and string values.
pub uninterp spec fn json_object_text(members: Seq<(Seq<char>, Seq<char>)>) -> Seq<char>;

/// The JSON text of an object of string members, as
/// `serde_json::Value::Object(..).to_string()` writes it. Only named.
#[verifier::external_body]
fn json_object_of_strings(members: &Vec<(String, String)>) -> (res: String)
    ensures
        res@ == json_object_text(members@.map_values(|m: (String, String)| (m.0@, m.1@))),
{
    let map: serde_json::Map<String, serde_json::Value> = members.iter().map(
        |(k, v)| (k.clone(), serde_json::Value::String(v.clone())),
    ).collect();
    serde_json::Value::Object(map).to_string()
}

/// The members recorded for a delivery address: its name, phone, email,
/// city and street address.
pub open spec fn address_members(a: delivery_addresses::Model) -> Seq<(Seq<char>, Seq<char>)> {
    seq![
        ("name"@, a.name@),
        ("phone"@, a.phone@),
        ("email"@, a.email@),
        ("city"@, a.city@),
        ("address"@, a.address@),
    ]
}

/// The delivery detail recorded with an order. Without a delivery address
/// it is the empty text. With one, the address must exist ("Delivery address
/// not found") and belong to the buyer ("Delivery address is not yours"),
/// and the detail is the JSON object of its members. `found` is what looking
/// up `delivery_address_lookup(params)` gave.
pub fn delivery_address_detail(
    buyer: &users::Model,
    params: &OrderParams,
    found: Option<&delivery_addresses::Model>,
) -> (res: Result<Option<String>, ApiError>)
    ensures
        match delivery_lookup(*params) {
            None => res matches Ok(Some(t)) && t@.len() == 0,
            Some(_) => match found {
                None => res matches Err(ApiError::BadRequest(m)) && m@ == "Delivery address not found"@,
                Some(a) => if a.user_id != buyer.id {
                    res matches Err(ApiError::BadRequest(m)) && m@ == "Delivery address is not yours"@
                } else {
                    res matches Ok(Some(t)) && t@ == json_object_text(address_members(*a))
                },
            },
        },
{
    match delivery_address_lookup(params) {
        None => Ok(Some(String::new())),
        Some(_) => {
            let a = match found {
                Some(a) => a,
                None => {
                    return Err(ApiError::BadRequest("Delivery address not found".to_owned()));
                },
            };
            if a.user_id != buyer.id {
                return Err(ApiError::BadRequest("Delivery address is not yours".to_owned()));
            }
            let mut members: Vec<(String, String)> = Vec::new();
            members.push(("name".to_owned(), a.name.clone()));
            members.push(("phone".to_owned(), a.phone.clone()));
            members.push(("email".to_owned(), a.email.clone()));
            members.push(("city".to_owned(), a.city.clone()));
            members.push(("address".to_owned(), a.address.clone()));
            proof {
                assert(members@.map_values(|m: (String, String)| (m.0@, m.1@)) =~= address_members(*a));
            }
            Ok(Some(json_object_of_strings(&members)))
        },
    }
}

/// The payment method recorded with an order: its name, expiry time, and
/// gateway or "-" when it has none.
pub fn payment_method_detail(payment_method: &payment_methods::Model) -> (res: PaymentMethodDetail)
    ensures
        res.name == payment_method.name,
        res.expiry_time == payment_method.expiry_time,
        match payment_method.payment_gateway {
            Some(g) => res.payment_gateway == g,
            None => res.payment_gateway@ == "-"@,
        },
{
    let payment_gateway = match &payment_method.payment_gateway {
        Some(g) => g.clone(),
        None => "-".to_owned(),
    };
    PaymentMethodDetail {
        name: payment_method.name.clone(),
        expiry_time: payment_method.expiry_time,
        payment_gateway,
    }
}

/// The order row a placed order starts as, but for its number: bought by
/// the buyer, awaiting payment, with the delivery and payment details and
/// the params' price, delivery address and payment method.
pub open spec fn placed_order(
    buyer_id: i32,
    params: OrderParams,
    order_number: String,
    delivery_detail: Option<String>,
    payment_detail: PaymentMethodDetail,
) -> orders::ActiveModel {
    orders::ActiveModel {
        id: ActiveValue::NotSet,
        buyer_id: ActiveValue::Changed(buyer_id),
        order_number: ActiveValue::Changed(order_number),
        final_price: ActiveValue::Changed(params.final_price),
        delivery_address_id: ActiveValue::Changed(params.delivery_address_id),
        delivery_address_detail: ActiveValue::Changed(delivery_detail),
        payment_method_id: ActiveValue::Changed(params.payment_method_id),
        payment_method_detail: ActiveValue::Changed(Some(payment_detail)),
        status: ActiveValue::Changed(OrderStatus::AwaitingPayment),
    }
}

/// Whether `number` has the shape of an order number: ten characters from
/// 'A'..='Z' and '0'..='9'.
pub open spec fn is_order_number(number: Seq<char>) -> bool {
    number.len() == ORDER_NUMBER_LEN && forall|i: int| 0 <= i < number.len() ==> is_order_number_char(
        #[trigger] number[i],
    )
}

/// The order row `order_add` inserts (see `placed_order`), with a fresh
/// random order number.
pub fn new_order(
    buyer: &users::Model,
    params: &OrderParams,
    delivery_detail: Option<String>,
    payment_detail: PaymentMethodDetail,
) -> (res: orders::ActiveModel)
    ensures
        res.order_number matches ActiveValue::Changed(n) && is_order_number(n@) && res == placed_order(
            buyer.id,
            *params,
            n,
            delivery_detail,
            payment_detail,
        ),
{
    let order_number = generate_custom_string(ORDER_NUMBER_LEN);
    let mut order = orders::ActiveModel::new();
    order.buyer_id = ActiveValue::Changed(buyer.id);
    order.order_number = ActiveValue::Changed(order_number);
    order.status = ActiveValue::Changed(OrderStatus::AwaitingPayment);
    order.delivery_address_detail = ActiveValue::Changed(delivery_detail);
    order.payment_method_detail = ActiveValue::Changed(Some(payment_detail));
    params.update(&mut order);
    order
}

/// The line recorded for a placed order: one unit of the product, with its
/// name, price, SKU and condition copied and its seller. The product must
/// have a condition.
pub fn new_order_item(order_id: i32, product: &ProductSnapshot, params: &OrderParams) -> (res: order_items::ActiveModel)
    requires
        product.condition is Some,
    ensures
        res == (order_items::ActiveModel {
            id: ActiveValue::NotSet,
            order_id: ActiveValue::Changed(order_id),
            product_id: ActiveValue::Changed(params.product_id),
            seller_id: ActiveValue::Changed(product.seller_id),
            product_name: ActiveValue::Changed(Some(product.title)),
            product_price: ActiveValue::Changed(product.price),
            product_sku: ActiveValue::Changed(Some(product.sku)),
            product_condition: ActiveValue::Changed(product.condition),
            qty: ActiveValue::Changed(ORDER_QTY),
        }),
{
    let mut item = order_items::ActiveModel::new();
    item.order_id = ActiveValue::Changed(order_id);
    item.product_name = ActiveValue::Changed(Some(product.title.clone()));
    item.product_price = ActiveValue::Changed(product.price);
    item.product_sku = ActiveValue::Changed(Some(product.sku.clone()));
    item.product_condition = ActiveValue::Changed(product.condition.clone());
    item.qty = ActiveValue::Changed(ORDER_QTY);
    item.seller_id = ActiveValue::Changed(product.seller_id);
    item.product_id = ActiveValue::Changed(params.product_id);
    item
}

/// Whether the user may confirm receipt of the order: it is theirs and has
/// been shipped.
pub open spec fn can_confirm(user_id: i32, order: orders::Model) -> bool {
    order.buyer_id == user_id && order.status == OrderStatus::Shipped
}

/// Confirming receipt of an order: `NotFound` when there is no such order, a
/// `BadRequest` when it is someone else's ("Order is not yours") or not
/// shipped yet ("Order is not shipped yet"), and otherwise the stored order
/// marked completed.
pub fn order_confirm(user: &users::Model, order: Option<orders::Model>) -> (res: Result<orders::ActiveModel, ApiError>)
    ensures
        match order {
            None => res matches Err(ApiError::NotFound),
            Some(o) => if o.buyer_id != user.id {
                res matches Err(ApiError::BadRequest(m)) && m@ == "Order is not yours"@
            } else if o.status != OrderStatus::Shipped {
                res matches Err(ApiError::BadRequest(m)) && m@ == "Order is not shipped yet"@
            } else {
                res == Ok::<orders::ActiveModel, ApiError>(
                    orders::ActiveModel { status: ActiveValue::Changed(OrderStatus::Completed), ..o.unchanged() },
                )
            },
        },
        res is Ok <==> (order matches Some(o) && can_confirm(user.id, o)),
{
    let item = crate::models::found(order)?;
    if item.buyer_id != user.id {
        return Err(ApiError::BadRequest("Order is not yours".to_owned()));
    }
    if item.status != OrderStatus::Shipped {
        return Err(ApiError::BadRequest("Order is not shipped yet".to_owned()));
    }
    Ok(item.into_active_model().set_status_completed())
}

} // verus!
