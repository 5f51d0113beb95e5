use rust_decimal::Decimal;
use seco::controllers::order::{
    check_stock, delivery_address_detail, delivery_address_lookup, generate_custom_string, new_order,
    new_order_item, order_confirm, payment_method_detail, OrderParams, ORDER_QTY,
};
use seco::controllers::seller::seller_order_cancel;
use seco::error::ApiError;
use seco::models::orders::{self, OrderStatus};
use seco::models::products::ProductSnapshot;
use seco::models::{delivery_addresses, payment_methods, users, ActiveValue};

fn user(id: i32, superuser: bool) -> users::Model {
    users::Model {
        id,
        pid: 1000 + id as u128,
        email: format!("u{}@test.com", id),
        first_name: "First".to_string(),
        last_name: "Last".to_string(),
        phone: None,
        location: None,
        latitude: None,
        longitude: None,
        is_active: true,
        is_blocked: false,
        is_superuser: superuser,
        email_verified_at: None,
        created_at: "2024-01-01 00:00:00".to_string(),
    }
}

fn product(stock: i32, condition: Option<&str>) -> ProductSnapshot {
    ProductSnapshot {
        id: 5,
        seller_id: 2,
        title: "Chair".to_string(),
        price: Decimal::new(150000, 0),
        stock,
        sku: "SKU-1".to_string(),
        condition: condition.map(|c| c.to_string()),
    }
}

fn params(address: Option<i32>) -> OrderParams {
    OrderParams {
        final_price: Decimal::new(155000, 0),
        delivery_address_id: address,
        payment_method_id: 3,
        product_id: 5,
    }
}

fn order(buyer_id: i32, status: OrderStatus) -> orders::Model {
    orders::Model {
        id: 11,
        buyer_id,
        order_number: "ABCDEFGHIJ".to_string(),
        final_price: Decimal::new(155000, 0),
        delivery_address_id: None,
        delivery_address_detail: Some(String::new()),
        payment_method_id: 3,
        status,
    }
}

fn address(owner: i32) -> delivery_addresses::Model {
    delivery_addresses::Model {
        id: 8,
        user_id: owner,
        name: "Budi".to_string(),
        phone: "0812".to_string(),
        email: "budi@test.com".to_string(),
        city: "Bandung".to_string(),
        postal_code: "40111".to_string(),
        address: "Jl. \"Merdeka\" 1".to_string(),
        notes: None,
        latitude: None,
        longitude: None,
    }
}

fn bad_request(r: Result<impl std::fmt::Debug, ApiError>) -> String {
    match r {
        Err(ApiError::BadRequest(m)) => m,
        other => panic!("expected a bad request, got {:?}", other),
    }
}

#[test]
fn order_numbers_are_ten_uppercase_letters_or_digits() {
    for _ in 0..20 {
        let n = generate_custom_string(10);
        assert_eq!(n.chars().count(), 10);
        assert!(n.chars().all(|c| c.is_ascii_uppercase() || c.is_ascii_digit()));
    }
    assert_eq!(generate_custom_string(0), "");
}

#[test]
fn out_of_stock_products_cannot_be_ordered() {
    assert_eq!(bad_request(check_stock(&product(0, Some("used")))), "Product is out of stock");
    assert_eq!(bad_request(check_stock(&product(-1, Some("used")))), "Product is out of stock");
    assert!(check_stock(&product(1, Some("used"))).is_ok());
}

#[test]
fn only_positive_address_ids_are_looked_up() {
    assert_eq!(delivery_address_lookup(&params(Some(8))), Some(8));
    assert_eq!(delivery_address_lookup(&params(Some(0))), None);
    assert_eq!(delivery_address_lookup(&params(Some(-3))), None);
    assert_eq!(delivery_address_lookup(&params(None)), None);
}

#[test]
fn delivery_detail_is_the_json_of_the_buyers_address() {
    let buyer = user(1, false);
    assert_eq!(delivery_address_detail(&buyer, &params(None), None).unwrap(), Some(String::new()));
    assert_eq!(delivery_address_detail(&buyer, &params(Some(0)), None).unwrap(), Some(String::new()));
    assert_eq!(bad_request(delivery_address_detail(&buyer, &params(Some(8)), None)), "Delivery address not found");
    assert_eq!(
        bad_request(delivery_address_detail(&buyer, &params(Some(8)), Some(&address(2)))),
        "Delivery address is not yours"
    );
    let text = delivery_address_detail(&buyer, &params(Some(8)), Some(&address(1))).unwrap().unwrap();
    assert_eq!(
        text,
        r#"{"address":"Jl. \"Merdeka\" 1","city":"Bandung","email":"budi@test.com","name":"Budi","phone":"0812"}"#
    );
}

#[test]
fn payment_detail_defaults_the_gateway_to_a_dash() {
    let mut pm = payment_methods::Model {
        id: 3,
        name: "COD".to_string(),
        description: None,
        expiry_time: 60,
        payment_gateway: None,
        active: true,
    };
    let d = payment_method_detail(&pm);
    assert_eq!((d.name.as_str(), d.expiry_time, d.payment_gateway.as_str()), ("COD", 60, "-"));
    pm.payment_gateway = Some("midtrans".to_string());
    assert_eq!(payment_method_detail(&pm).payment_gateway, "midtrans");
}

#[test]
fn a_placed_order_awaits_payment() {
    let buyer = user(1, false);
    let pm = payment_methods::Model {
        id: 3,
        name: "COD".to_string(),
        description: None,
        expiry_time: 60,
        payment_gateway: None,
        active: true,
    };
    let o = new_order(&buyer, &params(None), Some(String::new()), payment_method_detail(&pm));
    assert_eq!(o.id, ActiveValue::NotSet);
    assert_eq!(o.buyer_id, ActiveValue::Changed(1));
    assert_eq!(o.status, ActiveValue::Changed(OrderStatus::AwaitingPayment));
    assert_eq!(o.final_price, ActiveValue::Changed(Decimal::new(155000, 0)));
    assert_eq!(o.payment_method_id, ActiveValue::Changed(3));
    assert_eq!(o.delivery_address_id, ActiveValue::Changed(None));
    match o.order_number {
        ActiveValue::Changed(n) => {
            assert_eq!(n.len(), 10);
            assert!(n.chars().all(|c| c.is_ascii_uppercase() || c.is_ascii_digit()));
        }
        other => panic!("{:?}", other),
    }
}

#[test]
fn the_order_line_copies_the_product() {
    let item = new_order_item(11, &product(3, Some("like_new")), &params(None));
    assert_eq!(item.order_id, ActiveValue::Changed(11));
    assert_eq!(item.product_id, ActiveValue::Changed(5));
    assert_eq!(item.seller_id, ActiveValue::Changed(2));
    assert_eq!(item.product_name, ActiveValue::Changed(Some("Chair".to_string())));
    assert_eq!(item.product_sku, ActiveValue::Changed(Some("SKU-1".to_string())));
    assert_eq!(item.product_condition, ActiveValue::Changed(Some("like_new".to_string())));
    assert_eq!(item.product_price, ActiveValue::Changed(Decimal::new(150000, 0)));
    assert_eq!(item.qty, ActiveValue::Changed(ORDER_QTY));
    assert_eq!(ORDER_QTY, 1);
}

#[test]
fn buyers_confirm_only_their_shipped_orders() {
    let buyer = user(1, false);
    assert!(matches!(order_confirm(&buyer, None), Err(ApiError::NotFound)));
    assert_eq!(bad_request(order_confirm(&buyer, Some(order(2, OrderStatus::Shipped)))), "Order is not yours");
    assert_eq!(
        bad_request(order_confirm(&buyer, Some(order(1, OrderStatus::AwaitingPayment)))),
        "Order is not shipped yet"
    );
    let done = order_confirm(&buyer, Some(order(1, OrderStatus::Shipped))).unwrap();
    assert_eq!(done.status, ActiveValue::Changed(OrderStatus::Completed));
    assert_eq!(done.id, ActiveValue::Unchanged(11));
    assert_eq!(done.buyer_id, ActiveValue::Unchanged(1));
}

#[test]
fn sellers_cancel_only_orders_awaiting_payment() {
    for refused in [seller_order_cancel(None, true), seller_order_cancel(Some(order(1, OrderStatus::AwaitingPayment)), false)] {
        match refused {
            Err(ApiError::Custom { status, error, description }) => {
                assert_eq!((status, error.as_str(), description.as_str()), (404, "not_found", "Order not found"));
            }
            other => panic!("{:?}", other),
        }
    }
    assert_eq!(
        bad_request(seller_order_cancel(Some(order(1, OrderStatus::Shipped)), true)),
        "Only orders awaiting payment can be cancelled"
    );
    let cancelled = seller_order_cancel(Some(order(1, OrderStatus::AwaitingPayment)), true).unwrap();
    assert_eq!(cancelled.status, ActiveValue::Changed(OrderStatus::Cancelled));
    assert_eq!(cancelled.order_number, ActiveValue::Unchanged("ABCDEFGHIJ".to_string()));
}

#[test]
fn no_order_is_both_confirmable_and_cancellable_and_finished_orders_are_neither() {
    let buyer = user(1, false);
    for status in [
        OrderStatus::AwaitingPayment,
        OrderStatus::Shipped,
        OrderStatus::Completed,
        OrderStatus::Cancelled,
        OrderStatus::Returned,
        OrderStatus::Other,
    ] {
        let confirm = order_confirm(&buyer, Some(order(1, status))).is_ok();
        let cancel = seller_order_cancel(Some(order(1, status)), true).is_ok();
        assert!(!(confirm && cancel));
        if matches!(status, OrderStatus::Completed | OrderStatus::Cancelled | OrderStatus::Returned) {
            assert!(!confirm && !cancel);
        }
    }
}

#[test]
fn status_setters_touch_only_the_status() {
    let a = order(1, OrderStatus::Shipped).into_active_model();
    let r = a.set_status_returned();
    assert_eq!(r.status, ActiveValue::Changed(OrderStatus::Returned));
    assert_eq!(r.buyer_id, ActiveValue::Unchanged(1));
    assert!(matches!(r.payment_method_detail, ActiveValue::NotSet));
}
