use rust_decimal::Decimal;
use seco::models::seller_verifications::VerificationStatus;
use seco::models::{
    brands, categories, delivery_addresses, materials, offerings, order_items, payment_methods, product_images,
    seller_verifications, users,
};
use seco::views::base::BaseResponse;
use seco::views::brands::BrandResponse;
use seco::views::category::CategoryResponse;
use seco::views::delivery_address::DeliveryAddressResponse;
use seco::views::materials::MaterialResponse;
use seco::views::offering::AddNegotiationProductResponse;
use seco::views::order::OrderItemResponse;
use seco::views::payment_method::PaymentMethodResponse;
use seco::views::product_image::{ImageResponse, ProductImageResponse};
use seco::views::seller_verification::SellerVerificationResponse;
use seco::views::upload::FileResponse;
use seco::views::user::{AdminUserResponse, CurrentResponse};

fn user() -> users::Model {
    users::Model {
        id: 1,
        pid: 0x67e5504410b1426f9247bb680e5fe0c8,
        email: "a@b.c".to_string(),
        first_name: "Ani".to_string(),
        last_name: "Sari".to_string(),
        phone: Some("0812".to_string()),
        location: Some("Jakarta".to_string()),
        latitude: None,
        longitude: None,
        is_active: true,
        is_blocked: false,
        is_superuser: true,
        email_verified_at: None,
        created_at: "2024-05-01 10:00:00 +00:00".to_string(),
    }
}

#[test]
fn base_response_copies_its_texts() {
    let r = BaseResponse::new(&"success".to_string(), &"done".to_string());
    assert_eq!((r.status.as_str(), r.message.as_str()), ("success", "done"));
}

#[test]
fn simple_rows_are_shown_as_stored() {
    let b = BrandResponse::new(&brands::Model { id: 1, name: "Ikea".to_string(), code: None, is_active: true });
    assert_eq!((b.id, b.name.as_str(), b.code, b.is_active), (1, "Ikea", None, true));
    let m = MaterialResponse::new(&materials::Model { id: 2, name: "Oak".to_string(), code: Some("O".to_string()), is_active: false });
    assert_eq!((m.id, m.name.as_str(), m.code.as_deref(), m.is_active), (2, "Oak", Some("O"), false));
    let c = CategoryResponse::new(&categories::Model { id: 3, name: "Chairs".to_string(), parent_id: Some(1) });
    assert_eq!((c.id, c.name.as_str(), c.parent_id), (3, "Chairs", Some(1)));
    let p = PaymentMethodResponse::new(&payment_methods::Model {
        id: 4,
        name: "COD".to_string(),
        description: Some("cash".to_string()),
        expiry_time: 60,
        payment_gateway: None,
        active: true,
    });
    assert_eq!((p.id, p.name.as_str(), p.description.as_deref(), p.expiry_time, p.payment_gateway, p.active), (4, "COD", Some("cash"), 60, None, true));
    let i = ProductImageResponse::new(&product_images::Model { id: 5, product_id: 1, image: "product_images/1/a.png".to_string() });
    assert_eq!((i.id, i.image.as_str()), (5, "product_images/1/a.png"));
    let i2 = seco::views::product::ProductImageResponse::new(&product_images::Model { id: 6, product_id: 1, image: "b".to_string() });
    assert_eq!((i2.id, i2.image.as_str()), (6, "b"));
    assert_eq!(ImageResponse::new("a/b.png").path, "a/b.png");
    let f = FileResponse::new("product_images/1/a.png", 1);
    assert_eq!((f.product_id, f.path.as_str()), (1, "product_images/1/a.png"));
}

#[test]
fn delivery_address_response_repeats_the_name() {
    let r = DeliveryAddressResponse::new(&delivery_addresses::Model {
        id: 8,
        user_id: 1,
        name: "Budi".to_string(),
        phone: "0812".to_string(),
        email: "b@x.id".to_string(),
        city: "Bandung".to_string(),
        postal_code: "40111".to_string(),
        address: "Jl. A".to_string(),
        notes: Some("gate".to_string()),
        latitude: Some("-6.9".to_string()),
        longitude: None,
    });
    assert_eq!(r.id, 8);
    for field in [&r.name, &r.phone, &r.email, &r.city, &r.postal_code, &r.address] {
        assert_eq!(field, "Budi");
    }
    assert_eq!((r.notes.as_deref(), r.latitude.as_deref(), r.longitude), (Some("gate"), Some("-6.9"), None));
}

#[test]
fn offer_order_item_and_verification_responses() {
    let o = AddNegotiationProductResponse::new(&offerings::Model {
        id: 7,
        product_id: 5,
        user_id: 1,
        product_name: "Chair".to_string(),
        product_condition: None,
        product_price: Decimal::new(150000, 0),
        offer_price: Decimal::new(120000, 0),
        status: Some("Accepted".to_string()),
        action_type: None,
        firebase_id: Some("fb".to_string()),
    });
    assert_eq!((o.id, o.offer_price, o.status.as_deref(), o.firebase_id.as_deref(), o.product_id), (7, Decimal::new(120000, 0), Some("Accepted"), Some("fb"), 5));
    let li = OrderItemResponse::from_model(order_items::Model {
        id: 1,
        order_id: 2,
        product_id: 3,
        seller_id: 4,
        product_name: Some("Chair".to_string()),
        product_price: Decimal::new(99, 1),
        product_sku: None,
        product_condition: None,
        qty: 1,
    });
    assert_eq!((li.id, li.product_name.as_deref(), li.product_price, li.product_sku, li.qty), (1, Some("Chair"), Decimal::new(99, 1), None, 1));
    let v = SellerVerificationResponse::new(&seller_verifications::Model {
        id: 9,
        user_id: 1,
        face_photo: "a".to_string(),
        ktp_photo: "b".to_string(),
        face_ktp_photo: "c".to_string(),
        domicile_photo: "d".to_string(),
        ktp_text: Some("NIK".to_string()),
        status: VerificationStatus::Rejected,
        reject_reason: Some("blurry".to_string()),
    });
    assert_eq!((v.id, v.user_id, v.status, v.reject_reason.as_deref(), v.ktp_text.as_deref()), (9, 1, VerificationStatus::Rejected, Some("blurry"), Some("NIK")));
}

#[test]
fn user_responses_show_the_hyphenated_pid() {
    let c = CurrentResponse::new(&user());
    assert_eq!(c.pid, "67e55044-10b1-426f-9247-bb680e5fe0c8");
    assert_eq!((c.first_name.as_str(), c.last_name.as_str(), c.email.as_str(), c.location.as_deref()), ("Ani", "Sari", "a@b.c", Some("Jakarta")));
    let a = AdminUserResponse::new(&user());
    assert_eq!(a.pid, "67e55044-10b1-426f-9247-bb680e5fe0c8");
    assert_eq!((a.phone.as_deref(), a.is_active, a.is_blocked, a.is_superuser), (Some("0812"), true, false, true));
    assert_eq!(a.created_at, "2024-05-01 10:00:00 +00:00");
}
