use vstd::prelude::*;
use crate::models::seller_verifications::{self, VerificationStatus};

verus! {

/// A seller verification request as the API shows it.
pub struct SellerVerificationResponse {
    pub id: i32,
    pub user_id: i32,
    pub status: VerificationStatus,
    pub reject_reason: Option<String>,
    pub ktp_text: Option<String>,
}

impl SellerVerificationResponse {
    /// The request's id, user, status, rejection reason and ID-card text.
    pub fn new(model: &seller_verifications::Model) -> (res: Self)
        ensures
            res.id == model.id,
            res.user_id == model.user_id,
            res.status == model.status,
            res.reject_reason == model.reject_reason,
            res.ktp_text == model.ktp_text,
    {
        SellerVerificationResponse {
            id: model.id,
            user_id: model.user_id,
            status: model.status,
            reject_reason: model.reject_reason.clone(),
            ktp_text: model.ktp_text.clone(),
        }
    }
}

} // verus!
