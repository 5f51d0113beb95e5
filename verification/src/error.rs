use vstd::prelude::*;

verus! {

/// The errors a request handler answers with.
#[derive(Debug)]
pub enum ApiError {
    /// The requested row does not exist (HTTP 404 with the framework's body).
    NotFound,
    /// The request was refused (HTTP 400) with this message.
    BadRequest(String),
    /// An error with an explicit status, error code and description.
    Custom { status: u16, error: String, description: String },
}

/// `prefix` followed by `detail`, as one message.
pub fn join_message(prefix: &str, detail: &str) -> (res: String)
    ensures
        res@ == prefix@ + detail@,
{
    let mut res = prefix.to_owned();
    res.append(detail);
    res
}

/// A `BadRequest` whose message is `prefix` followed by `detail`.
pub fn bad_request_with(prefix: &str, detail: &str) -> (res: ApiError)
    ensures
        res matches ApiError::BadRequest(m) && m@ == prefix@ + detail@,
{
    ApiError::BadRequest(join_message(prefix, detail))
}

/// A `BadRequest` with exactly this message.
pub fn bad_request(message: &str) -> (res: ApiError)
    ensures
        res matches ApiError::BadRequest(m) && m@ == message@,
{
    ApiError::BadRequest(message.to_owned())
}

} // verus!
