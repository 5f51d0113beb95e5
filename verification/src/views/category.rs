use vstd::prelude::*;
use crate::models::categories;

verus! {

/// A category as the API shows it.
#[derive(Debug)]
pub struct CategoryResponse {
    pub id: i32,
    pub name: String,
    pub parent_id: Option<i32>,
}

/// A category offered as a possible parent.
#[derive(Debug)]
pub struct ParentCategoryResponse {
    pub id: i32,
    pub name: String,
}

/// A category placed in the category tree: `path` lists the ids from the
/// root down to it, joined by '/'.
#[derive(Debug)]
pub struct CategoryTree {
    pub id: i32,
    pub name: String,
    pub parent_id: Option<i32>,
    pub path: String,
}

impl CategoryResponse {
    /// The category's columns, one for one.
    pub fn new(category: &categories::Model) -> (res: Self)
        ensures
            res.id == category.id,
            res.name == category.name,
            res.parent_id == category.parent_id,
    {
        CategoryResponse { id: category.id, name: category.name.clone(), parent_id: category.parent_id }
    }
}

} // verus!
