use vstd::prelude::*;

verus! {

/// A status/message pair returned by handlers that have nothing else to say.
#[derive(Debug)]
pub struct BaseResponse {
    pub status: String,
    pub message: String,
}

impl BaseResponse {
    pub fn new(status: &String, message: &String) -> (res: Self)
        ensures
            res.status@ == status@,
            res.message@ == message@,
    {
        BaseResponse { status: status.clone(), message: message.clone() }
    }
}

} // verus!
