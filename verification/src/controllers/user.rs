use vstd::prelude::*;
use crate::error::ApiError;
use crate::models::ActiveValue;
use crate::models::users::{self, parse_uuid, uuid_value, ActiveModel};
use crate::text::str_eq;

verus! {

/// A user's new location.
#[derive(Debug)]
pub struct LocationParams {
    pub location: String,
    pub latitude: Option<String>,
    pub longitude: Option<String>,
}

impl LocationParams {
    /// Sets the user's location and coordinates; nothing else changes.
    pub fn update(&self, item: &mut ActiveModel)
        ensures
            *final(item) == (ActiveModel {
                location: ActiveValue::Changed(Some(self.location)),
                latitude: ActiveValue::Changed(self.latitude),
                longitude: ActiveValue::Changed(self.longitude),
                ..*old(item)
            }),
    {
        item.location = ActiveValue::Changed(Some(self.location.clone()));
        item.latitude = ActiveValue::Changed(self.latitude.clone());
        item.longitude = ActiveValue::Changed(self.longitude.clone());
    }
}

/// A user's new profile.
#[derive(Debug)]
pub struct ProfileParams {
    pub first_name: String,
    pub last_name: String,
    pub phone: Option<String>,
    pub email: String,
    pub location: String,
    pub latitude: Option<String>,
    pub longitude: Option<String>,
}

impl ProfileParams {
    /// Sets the user's names, phone, email, location and coordinates;
    /// nothing else changes.
    pub fn update(&self, item: &mut ActiveModel)
        ensures
            *final(item) == (ActiveModel {
                first_name: ActiveValue::Changed(self.first_name),
                last_name: ActiveValue::Changed(self.last_name),
                phone: ActiveValue::Changed(self.phone),
                email: ActiveValue::Changed(self.email),
                location: ActiveValue::Changed(Some(self.location)),
                latitude: ActiveValue::Changed(self.latitude),
                longitude: ActiveValue::Changed(self.longitude),
                ..*old(item)
            }),
    {
        item.first_name = ActiveValue::Changed(self.first_name.clone());
        item.last_name = ActiveValue::Changed(self.last_name.clone());
        item.phone = ActiveValue::Changed(self.phone.clone());
        item.email = ActiveValue::Changed(self.email.clone());
        item.location = ActiveValue::Changed(Some(self.location.clone()));
        item.latitude = ActiveValue::Changed(self.latitude.clone());
        item.longitude = ActiveValue::Changed(self.longitude.clone());
    }
}

/// What an administrator does to another account.
#[derive(Debug, Clone, Copy, PartialEq, Eq, Structural)]
pub enum AdminAction {
    Block,
    Unblock,
    Delete,
}

/// The outcome of an administrative request that was not refused.
#[derive(Debug, Clone, Copy, PartialEq, Eq, Structural)]
pub enum AdminStep {
    /// The action is carried out on the target account.
    Apply,
    /// The requester is no superuser: nothing happens, and the request still
    /// succeeds.
    Skip,
}

/// The refusal to act on one's own account.
pub open spec fn self_action_message(action: AdminAction) -> Seq<char> {
    match action {
        AdminAction::Delete => "cannot delete yourself"@,
        _ => "cannot block yourself"@,
    }
}

/// What an administrative request decides, by who asks and about whom.
pub open spec fn admin_outcome(actor: users::Model, target_pid: u128) -> Option<AdminStep> {
    if actor.pid == target_pid {
        None
    } else if actor.is_superuser {
        Some(AdminStep::Apply)
    } else {
        Some(AdminStep::Skip)
    }
}

/// An administrative request by `actor` about the account `target_pid`: a
/// `BadRequest` when it is their own account; otherwise carried out for a
/// superuser and silently skipped for anyone else.
pub fn user_admin_action(actor: &users::Model, target_pid: u128, action: AdminAction) -> (res: Result<AdminStep, ApiError>)
    ensures
        match admin_outcome(*actor, target_pid) {
            None => res matches Err(ApiError::BadRequest(m)) && m@ == self_action_message(action),
            Some(step) => res == Ok::<AdminStep, ApiError>(step),
        },
{
    if actor.pid == target_pid {
        let message = match action {
            AdminAction::Delete => "cannot delete yourself",
            _ => "cannot block yourself",
        };
        return Err(ApiError::BadRequest(message.to_owned()));
    }
    if actor.is_superuser {
        Ok(AdminStep::Apply)
    } else {
        Ok(AdminStep::Skip)
    }
}

/// An administrative request about the account whose public id is the
/// text `target_pid`: `None` when the text is no UUID (the request cannot go
/// on), and otherwise what `user_admin_action` decides for that id.
pub fn user_admin_request(actor: &users::Model, target_pid: &str, action: AdminAction) -> (res: Option<
    Result<AdminStep, ApiError>,
>)
    ensures
        res is None <==> uuid_value(target_pid@) is None,
        res matches Some(r) ==> match admin_outcome(*actor, uuid_value(target_pid@)->0) {
            None => r matches Err(ApiError::BadRequest(m)) && m@ == self_action_message(action),
            Some(step) => r == Ok::<AdminStep, ApiError>(step),
        },
{
    match parse_uuid(target_pid) {
        None => None,
        Some(pid) => Some(user_admin_action(actor, pid, action)),
    }
}

/// Blocking the account whose public id is `target_pid` (see
/// `user_admin_request`).
pub fn user_block(actor: &users::Model, target_pid: &str) -> (res: Option<Result<AdminStep, ApiError>>)
    ensures
        res is None <==> uuid_value(target_pid@) is None,
        res matches Some(r) ==> match admin_outcome(*actor, uuid_value(target_pid@)->0) {
            None => r matches Err(ApiError::BadRequest(m)) && m@ == "cannot block yourself"@,
            Some(step) => r == Ok::<AdminStep, ApiError>(step),
        },
{
    user_admin_request(actor, target_pid, AdminAction::Block)
}

/// Unblocking the account whose public id is `target_pid` (see
/// `user_admin_request`); its refusal shares the wording of blocking.
pub fn user_unblock(actor: &users::Model, target_pid: &str) -> (res: Option<Result<AdminStep, ApiError>>)
    ensures
        res is None <==> uuid_value(target_pid@) is None,
        res matches Some(r) ==> match admin_outcome(*actor, uuid_value(target_pid@)->0) {
            None => r matches Err(ApiError::BadRequest(m)) && m@ == "cannot block yourself"@,
            Some(step) => r == Ok::<AdminStep, ApiError>(step),
        },
{
    user_admin_request(actor, target_pid, AdminAction::Unblock)
}

/// Deleting the account whose public id is `target_pid` (see
/// `user_admin_request`).
pub fn user_delete(actor: &users::Model, target_pid: &str) -> (res: Option<Result<AdminStep, ApiError>>)
    ensures
        res is None <==> uuid_value(target_pid@) is None,
        res matches Some(r) ==> match admin_outcome(*actor, uuid_value(target_pid@)->0) {
            None => r matches Err(ApiError::BadRequest(m)) && m@ == "cannot delete yourself"@,
            Some(step) => r == Ok::<AdminStep, ApiError>(step),
        },
{
    user_admin_request(actor, target_pid, AdminAction::Delete)
}

/// A request about one's own account is refused whoever asks, superuser or
/// not; a request about another account is carried out exactly when a
/// superuser asks, and otherwise skipped.
pub proof fn law_own_account_is_refused_whoever_asks(actor: users::Model, target_pid: u128)
    ensures
        admin_outcome(actor, actor.pid) is None,
        admin_outcome(actor, target_pid) is None <==> target_pid == actor.pid,
        target_pid != actor.pid ==> (admin_outcome(actor, target_pid) == Some(AdminStep::Apply)
            <==> actor.is_superuser),
        target_pid != actor.pid ==> (admin_outcome(actor, target_pid) == Some(AdminStep::Skip)
            <==> !actor.is_superuser),
{
}

/// No request applies an administrative action to the requester's own
/// account, and only a superuser's request applies one at all.
pub proof fn law_admin_actions_need_superuser_and_another_account(actor: users::Model, target_pid: u128)
    ensures
        admin_outcome(actor, target_pid) == Some(AdminStep::Apply) ==> actor.is_superuser && actor.pid
            != target_pid,
{
}

/// The part of a product upload form a field carries.
#[derive(Debug, Clone, Copy, PartialEq, Eq, Structural)]
pub enum ProductField {
    /// The product's fields, as JSON text.
    Product,
    /// One of the product's images.
    Files,
    /// Anything else; ignored.
    Other,
}

/// Which part of the product form a field named `name` carries.
pub fn product_field(name: Option<&str>) -> (res: ProductField)
    ensures
        res == (match name {
            Some(n) => if n@ == "product"@ {
                ProductField::Product
            } else if n@ == "files"@ {
                ProductField::Files
            } else {
                ProductField::Other
            },
            None => ProductField::Other,
        }),
{
    match name {
        Some(n) => if str_eq(n, "product") {
            ProductField::Product
        } else if str_eq(n, "files") {
            ProductField::Files
        } else {
            ProductField::Other
        },
        None => ProductField::Other,
    }
}

/// An image file received with a new product, not stored yet.
#[derive(Debug)]
pub struct PendingFile<B> {
    pub file_name: String,
    pub content: B,
}

/// What a product upload form carried so far: the product (the last one
/// given wins) and its image files, in order.
#[derive(Debug)]
pub struct ProductForm<P, B> {
    pub product: Option<P>,
    pub files: Vec<PendingFile<B>>,
}

/// An image field must name its file: "file name not found" otherwise.
pub fn image_file_name(file_name: Option<String>) -> (res: Result<String, ApiError>)
    ensures
        match file_name {
            Some(n) => res == Ok::<String, ApiError>(n),
            None => res matches Err(ApiError::BadRequest(m)) && m@ == "file name not found"@,
        },
{
    match file_name {
        Some(n) => Ok(n),
        None => Err(ApiError::BadRequest("file name not found".to_owned())),
    }
}

impl<P, B> ProductForm<P, B> {
    /// A form that carried nothing yet.
    pub fn new() -> (res: Self)
        ensures
            res.product is None,
            res.files@.len() == 0,
    {
        ProductForm { product: None, files: Vec::new() }
    }

    /// Takes the product's fields; they replace any given before.
    pub fn accept_product(&mut self, product: P)
        ensures
            final(self).product == Some(product),
            final(self).files@ == old(self).files@,
    {
        self.product = Some(product);
    }

    /// Takes an image file, after those given before.
    pub fn accept_file(&mut self, file_name: String, content: B)
        ensures
            final(self).product == old(self).product,
            final(self).files@ == old(self).files@.push(PendingFile { file_name, content }),
    {
        self.files.push(PendingFile { file_name, content });
    }

    /// The product and its files, or "product data not found in multipart"
    /// when the form carried no product.
    pub fn finish(self) -> (res: Result<(P, Vec<PendingFile<B>>), ApiError>)
        ensures
            match self.product {
                Some(p) => res matches Ok((q, files)) && q == p && files@ == self.files@,
                None => res matches Err(ApiError::BadRequest(m)) && m@
                    == "product data not found in multipart"@,
            },
    {
        match self.product {
            Some(p) => Ok((p, self.files)),
            None => Err(ApiError::BadRequest("product data not found in multipart".to_owned())),
        }
    }
}

} // verus!
