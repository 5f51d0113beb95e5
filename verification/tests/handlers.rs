use rust_decimal::Decimal;
use seco::controllers::base::{echo, hello, verify_page, VerifyPageStep};
use seco::controllers::brands::{brand_add, brand_update, BrandParams};
use seco::controllers::carts::{
    load_item_by_product_id, owned_cart_item, user_cart_add, user_cart_delete_by_product_id, user_cart_update,
    CartPostParams,
};
use seco::controllers::categories::{category_add, category_update, load_parents, CategoryPostParams, ListParams};
use seco::controllers::delivery_address::{
    delivery_address_add, delivery_address_update, owned_delivery_address, DeliveryAddressParams,
};
use seco::controllers::delivery_method::{delivery_method_add, delivery_method_update, Params as MethodParams};
use seco::controllers::delivery_method_service::{
    delivery_method_service_add, delivery_method_service_update, superuser_only as service_gate,
    Params as ServiceParams, ServiceChange,
};
use seco::controllers::materials::{material_add, material_update, MaterialParams};
use seco::controllers::offering::{add_negotiation_product, do_negotiation_product, AddNegotiationProductParams, DoParams};
use seco::controllers::payment_methods::{payment_method_add, payment_method_update, PaymentMethodParams};
use seco::controllers::user::{user_block, user_delete, user_unblock, AdminStep, LocationParams, ProfileParams};
use seco::controllers::wishlists::{
    check_wishlist_product, load_wishlist, user_wishlist_delete, user_wishlist_new, wishlist_added, wishlist_deleted,
    WishListPostParams, WishlistWrite,
};
use seco::error::ApiError;
use seco::models::products::ProductSnapshot;
use seco::models::{
    brands, carts, categories, delivery_addresses, delivery_method_services, delivery_methods, materials, offerings,
    payment_methods, stamps_updated_at, users, wishlists, ActiveValue,
};

fn user(id: i32, superuser: bool) -> users::Model {
    users::Model {
        id,
        pid: 1000 + id as u128,
        email: format!("u{}@test.com", id),
        first_name: "First".to_string(),
        last_name: "Last".to_string(),
        phone: Some("0812".to_string()),
        location: Some("Jakarta".to_string()),
        latitude: None,
        longitude: None,
        is_active: true,
        is_blocked: false,
        is_superuser: superuser,
        email_verified_at: None,
        created_at: "2024-01-01 00:00:00".to_string(),
    }
}

fn product(seller_id: i32) -> ProductSnapshot {
    ProductSnapshot {
        id: 5,
        seller_id,
        title: "Chair".to_string(),
        price: Decimal::new(150000, 0),
        stock: 2,
        sku: "SKU-1".to_string(),
        condition: Some("used".to_string()),
    }
}

fn bad_request<T: std::fmt::Debug>(r: Result<T, ApiError>) -> String {
    match r {
        Err(ApiError::BadRequest(m)) => m,
        other => panic!("expected a bad request, got {:?}", other),
    }
}

fn custom<T: std::fmt::Debug>(r: Result<T, ApiError>) -> (u16, String, String) {
    match r {
        Err(ApiError::Custom { status, error, description }) => (status, error, description),
        other => panic!("expected a custom error, got {:?}", other),
    }
}

#[test]
fn base_handlers() {
    assert_eq!(echo("ping".to_string()), "ping");
    let h = hello();
    assert_eq!((h.status.as_str(), h.message.as_str()), ("ok", "Welcome to the Secondhand API"));
    let mut u = user(1, false);
    assert_eq!(verify_page(&u), VerifyPageStep::MarkVerified);
    assert_eq!(VerifyPageStep::MarkVerified.message(), "Account has been verified successfully!");
    u.email_verified_at = Some("2024-01-02".to_string());
    assert_eq!(verify_page(&u), VerifyPageStep::AlreadyVerified);
    assert_eq!(VerifyPageStep::AlreadyVerified.message(), "Account already verified!");
}

#[test]
fn updated_at_is_stamped_on_updates_that_left_it_alone() {
    assert!(stamps_updated_at(false, true));
    assert!(!stamps_updated_at(false, false));
    assert!(!stamps_updated_at(true, true));
}

#[test]
fn brands_and_materials_take_their_params() {
    let p = BrandParams { name: "Ikea".to_string(), code: Some("IK".to_string()), is_active: true };
    let a = brand_add(&p);
    assert_eq!(a.id, ActiveValue::NotSet);
    assert_eq!(a.name, ActiveValue::Changed("Ikea".to_string()));
    let stored = brands::Model { id: 4, name: "Old".to_string(), code: None, is_active: false };
    let u = brand_update(stored, &p);
    assert_eq!(u.id, ActiveValue::Unchanged(4));
    assert_eq!(u.code, ActiveValue::Changed(Some("IK".to_string())));
    assert_eq!(u.is_active, ActiveValue::Changed(true));
    let m = MaterialParams { name: "Oak".to_string(), code: None, is_active: false };
    assert_eq!(material_add(&m).name, ActiveValue::Changed("Oak".to_string()));
    let stored = materials::Model { id: 2, name: "Pine".to_string(), code: Some("P".to_string()), is_active: true };
    let u = material_update(stored, &m);
    assert_eq!((u.id, u.code), (ActiveValue::Unchanged(2), ActiveValue::Changed(None)));
}

#[test]
fn carts_refuse_own_products_and_other_peoples_lines() {
    let buyer = user(1, false);
    let params = CartPostParams { product_id: 5, qty: 3 };
    assert!(matches!(user_cart_add(&buyer, None, &params), Err(ApiError::NotFound)));
    assert_eq!(
        bad_request(user_cart_add(&buyer, Some(&product(1)), &params)),
        "You are not allowed to add your own products to the cart"
    );
    let line = user_cart_add(&buyer, Some(&product(2)), &params).unwrap();
    assert_eq!(line.user_id, ActiveValue::Changed(1));
    assert_eq!(line.product_id, ActiveValue::Changed(5));
    assert_eq!(line.qty, ActiveValue::Changed(3));
    assert_eq!(line.id, ActiveValue::NotSet);

    let mine = || carts::Model { id: 9, user_id: 1, product_id: 5, qty: 1 };
    let theirs = carts::Model { id: 9, user_id: 2, product_id: 5, qty: 1 };
    assert!(owned_cart_item(&buyer, Some(mine())).is_ok());
    assert!(matches!(owned_cart_item(&buyer, Some(theirs)), Err(ApiError::NotFound)));
    assert!(matches!(owned_cart_item(&buyer, None), Err(ApiError::NotFound)));
    let u = user_cart_update(&buyer, Some(mine()), &params).unwrap();
    assert_eq!((u.id, u.user_id, u.qty), (ActiveValue::Unchanged(9), ActiveValue::Unchanged(1), ActiveValue::Changed(3)));
    assert_eq!(custom(load_item_by_product_id(None)), (404, "not_found".to_string(), "Cart not found!".to_string()));
    let r = user_cart_delete_by_product_id();
    assert_eq!((r.status.as_str(), r.message.as_str()), ("success", "Cart delete successfully"));
}

#[test]
fn parent_categories_leave_out_the_excluded_one() {
    let cats = || {
        vec![
            categories::Model { id: 1, name: "Home".to_string(), parent_id: None },
            categories::Model { id: 2, name: "Chairs".to_string(), parent_id: Some(1) },
            categories::Model { id: 3, name: "Tables".to_string(), parent_id: Some(1) },
        ]
    };
    let all: Vec<(i32, String)> =
        load_parents(cats(), &ListParams { exclude_id: None }).into_iter().map(|r| (r.id, r.name)).collect();
    assert_eq!(all, [(1, "Home".to_string()), (2, "Chairs".to_string()), (3, "Tables".to_string())]);
    let some: Vec<i32> = load_parents(cats(), &ListParams { exclude_id: Some(2) }).into_iter().map(|r| r.id).collect();
    assert_eq!(some, [1, 3]);
    let p = CategoryPostParams { name: "Sofas".to_string(), parent_id: Some(1) };
    assert_eq!(category_add(&p).parent_id, ActiveValue::Changed(Some(1)));
    let u = category_update(categories::Model { id: 3, name: "Tables".to_string(), parent_id: None }, &p);
    assert_eq!((u.id, u.name), (ActiveValue::Unchanged(3), ActiveValue::Changed("Sofas".to_string())));
}

#[test]
fn delivery_addresses_belong_to_their_user() {
    let params = DeliveryAddressParams {
        user_id: Some(99),
        name: "Budi".to_string(),
        phone: "0812".to_string(),
        email: "b@x.id".to_string(),
        city: "Bandung".to_string(),
        postal_code: "40111".to_string(),
        address: "Jl. A".to_string(),
        notes: Some("gate".to_string()),
        latitude: None,
        longitude: Some("107.6".to_string()),
    };
    let a = delivery_address_add(&user(1, false), &params);
    assert_eq!(a.user_id, ActiveValue::Changed(1));
    assert_eq!(a.city, ActiveValue::Changed("Bandung".to_string()));
    assert_eq!(
        custom(owned_delivery_address(None)),
        (404, "not_found".to_string(), "Delivery address not found".to_string())
    );
    assert_eq!(
        custom(delivery_address_update(None, &params)),
        (404, "not_found".to_string(), "Delivery address not found".to_string())
    );
    let stored = delivery_addresses::Model {
        id: 8,
        user_id: 1,
        name: "x".to_string(),
        phone: "x".to_string(),
        email: "x".to_string(),
        city: "x".to_string(),
        postal_code: "x".to_string(),
        address: "x".to_string(),
        notes: None,
        latitude: None,
        longitude: None,
    };
    let u = delivery_address_update(Some(stored), &params).unwrap();
    assert_eq!((u.id, u.user_id), (ActiveValue::Unchanged(8), ActiveValue::Unchanged(1)));
    assert_eq!(u.notes, ActiveValue::Changed(Some("gate".to_string())));
}

#[test]
fn delivery_methods_and_services() {
    let p = MethodParams { name: "JNE".to_string(), active: true };
    assert_eq!(delivery_method_add(&p).name, ActiveValue::Changed("JNE".to_string()));
    let u = delivery_method_update(delivery_methods::Model { id: 1, name: "x".to_string(), active: false }, &p);
    assert_eq!((u.id, u.active), (ActiveValue::Unchanged(1), ActiveValue::Changed(true)));

    let sp = ServiceParams { delivery_method_id: 1, name: "REG".to_string(), price: Decimal::new(9000, 0), active: true };
    assert_eq!(
        bad_request(delivery_method_service_add(&user(1, false), &sp)),
        "You are not allowed to add delivery service. Only superuser can do that."
    );
    assert_eq!(
        bad_request(service_gate(&user(1, false), ServiceChange::Update)),
        "You are not allowed to update delivery service. Only superuser can do that."
    );
    assert_eq!(
        bad_request(service_gate(&user(1, false), ServiceChange::Delete)),
        "You are not allowed to delete delivery service. Only superuser can do that."
    );
    assert!(service_gate(&user(1, true), ServiceChange::Delete).is_ok());
    let added = delivery_method_service_add(&user(1, true), &sp).unwrap();
    assert_eq!(added.price, ActiveValue::Changed(Decimal::new(9000, 0)));
    let stored = delivery_method_services::Model {
        id: 3,
        delivery_method_id: 2,
        name: "YES".to_string(),
        price: Decimal::new(1, 0),
        active: false,
    };
    let u = delivery_method_service_update(stored, &sp);
    assert_eq!((u.id, u.delivery_method_id), (ActiveValue::Unchanged(3), ActiveValue::Changed(1)));
}

#[test]
fn payment_methods_are_for_superusers() {
    let p = PaymentMethodParams {
        name: "COD".to_string(),
        description: None,
        expiry_time: 60,
        payment_gateway: Some("midtrans".to_string()),
        active: true,
    };
    assert_eq!(
        bad_request(payment_method_add(&user(1, false), &p)),
        "You are not allowed to update payment methods. Only superuser can do that."
    );
    let a = payment_method_add(&user(1, true), &p).unwrap();
    assert_eq!(a.expiry_time, ActiveValue::Changed(60));
    let stored = payment_methods::Model {
        id: 2,
        name: "Transfer".to_string(),
        description: Some("d".to_string()),
        expiry_time: 10,
        payment_gateway: None,
        active: false,
    };
    let u = payment_method_update(stored, &p);
    assert_eq!((u.id, u.payment_gateway), (ActiveValue::Unchanged(2), ActiveValue::Changed(Some("midtrans".to_string()))));
}

#[test]
fn offers_copy_the_product_and_answers_set_the_status() {
    let params = AddNegotiationProductParams {
        action: Some("offer".to_string()),
        offer: Decimal::new(120000, 0),
        firebase_id: "fb-1".to_string(),
    };
    assert!(matches!(add_negotiation_product(&user(1, false), None, &params), Err(ApiError::NotFound)));
    let o = add_negotiation_product(&user(1, false), Some(&product(2)), &params).unwrap();
    assert_eq!(o.product_id, ActiveValue::Changed(5));
    assert_eq!(o.user_id, ActiveValue::Changed(1));
    assert_eq!(o.product_name, ActiveValue::Changed("Chair".to_string()));
    assert_eq!(o.product_price, ActiveValue::Changed(Decimal::new(150000, 0)));
    assert_eq!(o.offer_price, ActiveValue::Changed(Decimal::new(120000, 0)));
    assert_eq!(o.firebase_id, ActiveValue::Changed(Some("fb-1".to_string())));
    assert_eq!(o.status, ActiveValue::NotSet);

    let answer = DoParams { status: Some("Accepted".to_string()) };
    assert!(matches!(do_negotiation_product(None, &answer), Err(ApiError::NotFound)));
    let stored = offerings::Model {
        id: 7,
        product_id: 5,
        user_id: 1,
        product_name: "Chair".to_string(),
        product_condition: None,
        product_price: Decimal::new(150000, 0),
        offer_price: Decimal::new(120000, 0),
        status: None,
        action_type: None,
        firebase_id: Some("fb-1".to_string()),
    };
    let d = do_negotiation_product(Some(stored), &answer).unwrap();
    assert_eq!(d.status, ActiveValue::Changed(Some("Accepted".to_string())));
    assert_eq!(d.offer_price, ActiveValue::Unchanged(Decimal::new(120000, 0)));
}

#[test]
fn wishlists_soft_delete_and_restore() {
    let me = user(1, false);
    assert_eq!(custom(check_wishlist_product(&me, None)), (404, "not_found".to_string(), "Product not found!".to_string()));
    assert_eq!(
        custom(check_wishlist_product(&me, Some(&product(1)))),
        (400, "bad_request".to_string(), "You are not allowed to add your own products to the wishlist.".to_string())
    );
    assert!(check_wishlist_product(&me, Some(&product(2))).is_ok());
    let params = WishListPostParams { product_id: 5, user_id: Some(42) };
    assert_eq!(
        custom(user_wishlist_new(&me, None, None, &params)),
        (404, "not_found".to_string(), "Product not found!".to_string())
    );
    assert_eq!(custom(user_wishlist_new(&me, Some(&product(1)), None, &params)).0, 400);
    match user_wishlist_new(&me, Some(&product(2)), None, &params).unwrap() {
        WishlistWrite::Create(w) => {
            assert_eq!(w.user_id, ActiveValue::Changed(1));
            assert_eq!(w.product_id, ActiveValue::Changed(5));
        }
        other => panic!("{:?}", other),
    }
    let stored = || wishlists::Model { id: 3, user_id: 1, product_id: 5, is_deleted: false };
    let deleted = user_wishlist_delete(Some(stored())).unwrap();
    assert_eq!(deleted.is_deleted, ActiveValue::Changed(true));
    let after_delete = wishlists::Model { is_deleted: true, ..stored() };
    match user_wishlist_new(&me, Some(&product(2)), Some(after_delete), &params).unwrap() {
        WishlistWrite::Restore(w) => {
            assert_eq!(w.is_deleted, ActiveValue::Changed(false));
            assert_eq!(w.id, ActiveValue::Unchanged(3));
            assert_eq!(w.product_id, ActiveValue::Unchanged(5));
        }
        other => panic!("{:?}", other),
    }
    let back_and_forth = stored().into_active_model().set_wishlist_deleted().set_wishlist_un_deleted();
    let restored_only = stored().into_active_model().set_wishlist_un_deleted();
    assert_eq!(back_and_forth.is_deleted, restored_only.is_deleted);
    assert_eq!(back_and_forth.id, restored_only.id);
    assert_eq!(custom(load_wishlist(None)), (404, "not_found".to_string(), "Wishlist not found!".to_string()));
    assert_eq!(custom(user_wishlist_delete(None)), (404, "not_found".to_string(), "Wishlist not found!".to_string()));
    assert_eq!(wishlist_added().message, "Successfully added into wishlist");
    assert_eq!(wishlist_deleted().message, "Wishlist delete successfully");
}

#[test]
fn admin_actions_need_a_superuser_and_another_account() {
    let admin = user(1, true);
    let plain = user(2, false);
    let admin_id = users::pid_text(admin.pid);
    let plain_id = users::pid_text(plain.pid);
    assert_eq!(bad_request(user_block(&admin, &admin_id).unwrap()), "cannot block yourself");
    assert_eq!(bad_request(user_unblock(&admin, &admin_id).unwrap()), "cannot block yourself");
    assert_eq!(bad_request(user_delete(&admin, &admin_id).unwrap()), "cannot delete yourself");
    assert_eq!(user_block(&admin, &plain_id).unwrap().unwrap(), AdminStep::Apply);
    assert_eq!(user_delete(&admin, &plain_id).unwrap().unwrap(), AdminStep::Apply);
    assert_eq!(user_block(&plain, &admin_id).unwrap().unwrap(), AdminStep::Skip);
    assert_eq!(user_unblock(&plain, &admin_id).unwrap().unwrap(), AdminStep::Skip);
    // the id is read as a UUID in any form the parser accepts
    assert_eq!(bad_request(user_block(&admin, &admin_id.to_uppercase()).unwrap()), "cannot block yourself");
    assert_eq!(bad_request(user_block(&admin, &admin_id.replace('-', "")).unwrap()), "cannot block yourself");
}

#[test]
fn admin_actions_on_a_text_that_is_no_uuid_go_nowhere() {
    let admin = user(1, true);
    assert!(user_block(&admin, "not-a-uuid").is_none());
    assert!(user_unblock(&admin, "").is_none());
    assert!(user_delete(&admin, "1001").is_none());
}

#[test]
fn profile_and_location_updates() {
    let loc = LocationParams { location: "Bandung".to_string(), latitude: Some("-6.9".to_string()), longitude: None };
    let mut a = user(1, false).into_active_model();
    loc.update(&mut a);
    assert_eq!(a.location, ActiveValue::Changed(Some("Bandung".to_string())));
    assert_eq!(a.longitude, ActiveValue::Changed(None));
    assert_eq!(a.email, ActiveValue::Unchanged("u1@test.com".to_string()));
    let prof = ProfileParams {
        first_name: "A".to_string(),
        last_name: "B".to_string(),
        phone: None,
        email: "new@test.com".to_string(),
        location: "Bogor".to_string(),
        latitude: None,
        longitude: None,
    };
    prof.update(&mut a);
    assert_eq!(a.email, ActiveValue::Changed("new@test.com".to_string()));
    assert_eq!(a.phone, ActiveValue::Changed(None));
    assert_eq!(a.is_superuser, ActiveValue::Unchanged(false));
}

#[test]
fn adding_a_listed_product_again_restores_its_one_entry() {
    let me = user(1, false);
    let params = WishListPostParams { product_id: 5, user_id: None };
    let listed = wishlists::Model { id: 7, user_id: 1, product_id: 5, is_deleted: false };
    match user_wishlist_new(&me, Some(&product(2)), Some(listed), &params).unwrap() {
        WishlistWrite::Restore(w) => {
            assert_eq!(w.id, ActiveValue::Unchanged(7));
            assert_eq!(w.is_deleted, ActiveValue::Changed(false));
        }
        other => panic!("{:?}", other),
    }
}
