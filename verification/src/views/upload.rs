use vstd::prelude::*;

verus! {

/// A file stored for a product.
#[derive(Debug)]
pub struct FileResponse {
    pub product_id: i32,
    pub path: String,
}

impl FileResponse {
    /// The product and the path, as given.
    pub fn new(path: &str, product_id: i32) -> (res: Self)
        ensures
            res.product_id == product_id,
            res.path@ == path@,
    {
        FileResponse { product_id, path: path.to_owned() }
    }
}

} // verus!
