use vstd::prelude::*;
use crate::models::product_images;

verus! {

/// A product image as the API shows it.
#[derive(Debug)]
pub struct ProductImageResponse {
    pub id: i32,
    pub image: String,
}

impl ProductImageResponse {
    /// The image's id and storage key.
    pub fn new(product_image: &product_images::Model) -> (res: Self)
        ensures
            res.id == product_image.id,
            res.image == product_image.image,
    {
        ProductImageResponse { id: product_image.id, image: product_image.image.clone() }
    }
}

} // verus!
