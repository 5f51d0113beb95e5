//! The decisions of the request handlers: what each one checks, what it
//! writes and what it answers, given the rows it has read.
pub mod base;
pub mod brands;
pub mod carts;
pub mod categories;
pub mod delivery_address;
pub mod delivery_method;
pub mod delivery_method_service;
pub mod materials;
pub mod offering;
pub mod order;
pub mod payment_methods;
pub mod products;
pub mod seller;
pub mod seller_verification;
pub mod upload;
pub mod user;
pub mod wishlists;
