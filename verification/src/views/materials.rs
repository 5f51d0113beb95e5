use vstd::prelude::*;
use crate::models::materials;

verus! {

/// A material as the API shows it.
#[derive(Debug)]
pub struct MaterialResponse {
    pub id: i32,
    pub name: String,
    pub code: Option<String>,
    pub is_active: bool,
}

impl MaterialResponse {
    /// The material's columns, one for one.
    pub fn new(material: &materials::Model) -> (res: Self)
        ensures
            res.id == material.id,
            res.name == material.name,
            res.code == material.code,
            res.is_active == material.is_active,
    {
        MaterialResponse {
            id: material.id,
            name: material.name.clone(),
            code: material.code.clone(),
            is_active: material.is_active,
        }
    }
}

} // verus!
