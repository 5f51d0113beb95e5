use vstd::prelude::*;

verus! {

/// The body of a refusal: an error code and a description.
#[derive(Debug)]
pub struct UnauthorizedResponse {
    pub error: String,
    pub description: String,
}

} // verus!
