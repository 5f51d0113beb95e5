//! The rows the application stores, as the library sees them, and the
//! partial rows (active models) it prepares for writing.
pub mod brands;
pub mod carts;
pub mod categories;
pub mod delivery_addresses;
pub mod delivery_method_services;
pub mod delivery_methods;
pub mod materials;
pub mod offerings;
pub mod order_items;
pub mod orders;
pub mod payment_methods;
pub mod product_images;
pub mod products;
pub mod refresh_sessions;
pub mod seller_verifications;
pub mod users;
pub mod wishlists;

use vstd::prelude::*;

verus! {

/// `rust_decimal::Decimal`, the exact decimal type of money columns; the
/// library only carries such values from one row to another.
#[verifier::external_type_specification]
#[verifier::external_body]
pub struct ExDecimal(rust_decimal::Decimal);

/// A column of a row being written: a new value, the value already stored,
/// or no value at all (the column keeps its default).
#[derive(Debug, PartialEq)]
pub enum ActiveValue<T> {
    Changed(T),
    Unchanged(T),
    NotSet,
}

/// Whether saving a row should stamp `updated_at` with the current time:
/// on an update (not an insert) that did not set `updated_at` itself.
pub fn stamps_updated_at(insert: bool, updated_at_unchanged: bool) -> (res: bool)
    ensures
        res == (!insert && updated_at_unchanged),
{
    !insert && updated_at_unchanged
}

/// The row, or `NotFound` when the lookup found none.
pub fn found<T>(item: Option<T>) -> (res: Result<T, crate::error::ApiError>)
    ensures
        match item {
            Some(v) => res == Ok::<T, crate::error::ApiError>(v),
            None => res matches Err(crate::error::ApiError::NotFound),
        },
{
    match item {
        Some(v) => Ok(v),
        None => Err(crate::error::ApiError::NotFound),
    }
}

} // verus!
