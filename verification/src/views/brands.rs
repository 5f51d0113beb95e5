use vstd::prelude::*;
use crate::models::brands;

verus! {

/// A brand as the API shows it.
#[derive(Debug)]
pub struct BrandResponse {
    pub id: i32,
    pub name: String,
    pub code: Option<String>,
    pub is_active: bool,
}

impl BrandResponse {
    /// The brand's columns, one for one.
    pub fn new(brand: &brands::Model) -> (res: Self)
        ensures
            res.id == brand.id,
            res.name == brand.name,
            res.code == brand.code,
            res.is_active == brand.is_active,
    {
        BrandResponse {
            id: brand.id,
            name: brand.name.clone(),
            code: brand.code.clone(),
            is_active: brand.is_active,
        }
    }
}

} // verus!
