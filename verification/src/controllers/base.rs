use vstd::prelude::*;
use crate::models::users;
use crate::views::base::BaseResponse;

verus! {

/// Answers with the request body, unchanged.
pub fn echo(req_body: String) -> (res: String)
    ensures
        res == req_body,
{
    req_body
}

/// The greeting of the API root: status "ok" and a welcome message.
pub fn hello() -> (res: BaseResponse)
    ensures
        res.status@ == "ok"@,
        res.message@ == "Welcome to the Secondhand API"@,
{
    BaseResponse::new(&"ok".to_owned(), &"Welcome to the Secondhand API".to_owned())
}

/// What following an email verification link does for the account it names.
#[derive(Debug, Clone, Copy, PartialEq, Eq, Structural)]
pub enum VerifyPageStep {
    /// The email was verified before; nothing is written.
    AlreadyVerified,
    /// The account is to be marked verified now.
    MarkVerified,
}

/// Whether the account found for a verification link is to be marked verified.
pub fn verify_page(user: &users::Model) -> (res: VerifyPageStep)
    ensures
        res == (if user.email_verified_at is Some {
            VerifyPageStep::AlreadyVerified
        } else {
            VerifyPageStep::MarkVerified
        }),
{
    if user.email_verified_at.is_some() {
        VerifyPageStep::AlreadyVerified
    } else {
        VerifyPageStep::MarkVerified
    }
}

impl VerifyPageStep {
    /// The text shown after the step.
    pub fn message(&self) -> (res: String)
        ensures
            *self == VerifyPageStep::AlreadyVerified ==> res@ == "Account already verified!"@,
            *self == VerifyPageStep::MarkVerified ==> res@
                == "Account has been verified successfully!"@,
    {
        match self {
            VerifyPageStep::AlreadyVerified => "Account already verified!".to_owned(),
            VerifyPageStep::MarkVerified => "Account has been verified successfully!".to_owned(),
        }
    }
}

} // verus!
