use vstd::prelude::*;
use crate::models::product_images::Model;

verus! {

/// A product image as the API shows it.
#[derive(Debug)]
pub struct ProductImageResponse {
    pub id: i32,
    pub image: String,
}

impl ProductImageResponse {
    /// The image's id and storage key.
    pub fn new(product_image: &Model) -> (res: Self)
        ensures
            res.id == product_image.id,
            res.image == product_image.image,
    {
        ProductImageResponse { id: product_image.id, image: product_image.image.clone() }
    }
}

/// A stored file's path.
#[derive(Debug)]
pub struct ImageResponse {
    pub path: String,
}

impl ImageResponse {
    /// The path, as given.
    pub fn new(path: &str) -> (res: Self)
        ensures
            res.path@ == path@,
    {
        ImageResponse { path: path.to_owned() }
    }
}

} // verus!
