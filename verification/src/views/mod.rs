//! The bodies handlers answer with.
pub mod base;
pub mod brands;
pub mod category;
pub mod delivery_address;
pub mod materials;
pub mod offering;
pub mod order;
pub mod payment_method;
pub mod product;
pub mod product_image;
pub mod seller_verification;
pub mod upload;
pub mod user;
