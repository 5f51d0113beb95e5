use vstd::prelude::*;
use crate::error::ApiError;
use crate::models::ActiveValue;
use crate::models::seller_verifications::{ActiveModel, Model, VerificationStatus};
use crate::text::{push_char, push_signed_decimal, signed_decimal, str_eq};

verus! {

/// What `std::path::Path::extension` gives for a path, as text.
pub uninterp spec fn path_extension(path: Seq<char>) -> Option<Seq<char>>;

/// `Path::new(path).extension()` as text: the part of the file name after
/// its last '.', or nothing when the file name has no '.' past its first
/// character. Only named.
#[verifier::external_body]
fn extension_of(path: &str) -> (res: Option<String>)
    ensures
        match path_extension(path@) {
            Some(e) => res matches Some(r) && r@ == e,
            None => res is None,
        },
{
    std::path::Path::new(path).extension().and_then(|e| e.to_str()).map(|e| e.to_owned())
}

/// The refusal while an earlier request is pending or approved.
pub open spec fn already_requested_message() -> Seq<char> {
    "Verification already exists or is pending"@
}

/// A user may ask for verification unless an earlier request of theirs is
/// pending or approved; a rejected one does not stand in the way.
pub fn check_existing_verification(existing: Option<&Model>) -> (res: Result<(), ApiError>)
    ensures
        match existing {
            Some(v) => if v.status == VerificationStatus::Pending || v.status == VerificationStatus::Approved {
                res matches Err(ApiError::BadRequest(m)) && m@ == already_requested_message()
            } else {
                res is Ok
            },
            None => res is Ok,
        },
{
    if let Some(v) = existing {
        if v.status == VerificationStatus::Pending || v.status == VerificationStatus::Approved {
            return Err(ApiError::BadRequest("Verification already exists or is pending".to_owned()));
        }
    }
    Ok(())
}

/// An uploaded field is used only when it carries data.
pub fn accepts_upload(len: usize) -> (res: bool)
    ensures
        res == (len > 0),
{
    len > 0
}

/// The storage key of an uploaded verification photo:
/// `seller_verifications/{user_id}/{user_id}_{field}_{timestamp}.{ext}`.
pub open spec fn verification_key(user_id: i32, field: Seq<char>, timestamp: i64, ext: Seq<char>) -> Seq<
    char,
> {
    "seller_verifications/"@ + signed_decimal(user_id as int) + seq!['/'] + signed_decimal(
        user_id as int,
    ) + seq!['_'] + field + seq!['_'] + signed_decimal(timestamp as int) + seq!['.'] + ext
}

/// The field name used in keys: the field's name, or the empty text.
pub open spec fn field_label(field_name: Option<Seq<char>>) -> Seq<char> {
    match field_name {
        Some(n) => n,
        None => Seq::empty(),
    }
}

/// The extension used in keys: that of the file's name ("photo.jpg" when it
/// has none), or "jpg" when that name has no extension.
pub open spec fn upload_extension(file_name: Option<Seq<char>>) -> Seq<char> {
    let name = match file_name {
        Some(n) => n,
        None => "photo.jpg"@,
    };
    match path_extension(name) {
        Some(e) => e,
        None => "jpg"@,
    }
}

/// Where an uploaded verification photo is stored (see `verification_key`).
pub fn verification_storage_key(user_id: i32, field_name: Option<&str>, file_name: Option<&str>, timestamp: i64) -> (res: String)
    ensures
        res@ == verification_key(
            user_id,
            field_label(
                match field_name {
                    Some(n) => Some(n@),
                    None => None,
                },
            ),
            timestamp,
            upload_extension(
                match file_name {
                    Some(n) => Some(n@),
                    None => None,
                },
            ),
        ),
{
    let label: &str = match field_name {
        Some(n) => n,
        None => "",
    };
    let name: &str = match file_name {
        Some(n) => n,
        None => "photo.jpg",
    };
    let ext = match extension_of(name) {
        Some(e) => e,
        None => "jpg".to_owned(),
    };
    let mut key = "seller_verifications/".to_owned();
    push_signed_decimal(&mut key, user_id as i64);
    push_char(&mut key, '/');
    push_signed_decimal(&mut key, user_id as i64);
    push_char(&mut key, '_');
    key.append(label);
    push_char(&mut key, '_');
    push_signed_decimal(&mut key, timestamp);
    push_char(&mut key, '.');
    key.append(ext.as_str());
    proof {
        assert(label@ == field_label(
            match field_name {
                Some(n) => Some(n@),
                None => None,
            },
        )) by {
            if field_name is None {
                assert(""@ =~= Seq::<char>::empty()) by {
                    reveal_strlit("");
                }
            }
        }
    }
    key
}

/// The ID-card text stored with a request: what was read, or the empty text.
pub open spec fn id_card_text(read: Option<String>) -> Seq<char> {
    match read {
        Some(t) => t@,
        None => Seq::empty(),
    }
}

/// The photos a verification request carried so far, by field, and the text
/// read off the ID card.
#[derive(Debug)]
pub struct VerificationUploads {
    pub face_photo: Option<String>,
    pub ktp_photo: Option<String>,
    pub face_ktp_photo: Option<String>,
    pub domicile_photo: Option<String>,
    pub ktp_text: Option<String>,
}

/// Whether the field carries the ID card, whose text is read.
pub fn is_id_card_field(field_name: &str) -> (res: bool)
    ensures
        res == (field_name@ == "ktp_photo"@),
{
    str_eq(field_name, "ktp_photo")
}

impl VerificationUploads {
    /// Nothing received yet.
    pub fn new() -> (res: Self)
        ensures
            res.face_photo is None && res.ktp_photo is None && res.face_ktp_photo is None
                && res.domicile_photo is None && res.ktp_text is None,
    {
        VerificationUploads {
            face_photo: None,
            ktp_photo: None,
            face_ktp_photo: None,
            domicile_photo: None,
            ktp_text: None,
        }
    }

    /// Records where the photo of field `field_name` was stored; a later
    /// photo of the same field replaces it, and other fields are ignored.
    pub fn record_photo(&mut self, field_name: &str, key: String)
        ensures
            final(self).ktp_text == old(self).ktp_text,
            final(self).face_photo == (if field_name@ == "face_photo"@ {
                Some(key)
            } else {
                old(self).face_photo
            }),
            final(self).ktp_photo == (if field_name@ == "ktp_photo"@ {
                Some(key)
            } else {
                old(self).ktp_photo
            }),
            final(self).face_ktp_photo == (if field_name@ == "face_ktp_photo"@ {
                Some(key)
            } else {
                old(self).face_ktp_photo
            }),
            final(self).domicile_photo == (if field_name@ == "domicile_photo"@ {
                Some(key)
            } else {
                old(self).domicile_photo
            }),
    {
        proof {
            reveal_strlit("face_photo");
            reveal_strlit("ktp_photo");
            reveal_strlit("face_ktp_photo");
            reveal_strlit("domicile_photo");
            assert("face_photo"@.len() == 10 && "ktp_photo"@.len() == 9);
            assert("face_ktp_photo"@.len() == 14 && "domicile_photo"@.len() == 14);
            assert("face_ktp_photo"@[0] != "domicile_photo"@[0]);
        }
        if str_eq(field_name, "face_photo") {
            self.face_photo = Some(key);
        } else if str_eq(field_name, "ktp_photo") {
            self.ktp_photo = Some(key);
        } else if str_eq(field_name, "face_ktp_photo") {
            self.face_ktp_photo = Some(key);
        } else if str_eq(field_name, "domicile_photo") {
            self.domicile_photo = Some(key);
        }
    }

    /// Records the text read off the ID card; it replaces any read before.
    pub fn record_id_card_text(&mut self, text: String)
        ensures
            *final(self) == (VerificationUploads { ktp_text: Some(text), ..*old(self) }),
    {
        self.ktp_text = Some(text);
    }

    /// The request to store: every photo must have come ("{field} is
    /// required", checked in the order face, ID card, face with ID card,
    /// domicile); the ID-card text defaults to the empty text; the request
    /// starts pending.
    pub fn finish(self, user_id: i32) -> (res: Result<ActiveModel, ApiError>)
        ensures
            self.face_photo is None ==> (res matches Err(ApiError::BadRequest(m)) && m@
                == "face_photo is required"@),
            self.face_photo is Some && self.ktp_photo is None ==> (res matches Err(
                ApiError::BadRequest(m),
            ) && m@ == "ktp_photo is required"@),
            self.face_photo is Some && self.ktp_photo is Some && self.face_ktp_photo is None ==> (
            res matches Err(ApiError::BadRequest(m)) && m@ == "face_ktp_photo is required"@),
            self.face_photo is Some && self.ktp_photo is Some && self.face_ktp_photo is Some
                && self.domicile_photo is None ==> (res matches Err(ApiError::BadRequest(m)) && m@
                == "domicile_photo is required"@),
            self.face_photo is Some && self.ktp_photo is Some && self.face_ktp_photo is Some
                && self.domicile_photo is Some ==> (res matches Ok(m) && m.id is NotSet && m.user_id
                == ActiveValue::Changed(user_id) && m.face_photo == ActiveValue::Changed(self.face_photo->0)
                && m.ktp_photo == ActiveValue::Changed(self.ktp_photo->0) && m.face_ktp_photo
                == ActiveValue::Changed(self.face_ktp_photo->0) && m.domicile_photo == ActiveValue::Changed(
                self.domicile_photo->0,
            ) && (m.ktp_text matches ActiveValue::Changed(Some(t)) && t@ == id_card_text(self.ktp_text))
                && m.status == ActiveValue::Changed(VerificationStatus::Pending)
                && m.reject_reason is NotSet),
    {
        let face_photo = match self.face_photo {
            Some(p) => p,
            None => {
                return Err(ApiError::BadRequest("face_photo is required".to_owned()));
            },
        };
        let ktp_photo = match self.ktp_photo {
            Some(p) => p,
            None => {
                return Err(ApiError::BadRequest("ktp_photo is required".to_owned()));
            },
        };
        let face_ktp_photo = match self.face_ktp_photo {
            Some(p) => p,
            None => {
                return Err(ApiError::BadRequest("face_ktp_photo is required".to_owned()));
            },
        };
        let domicile_photo = match self.domicile_photo {
            Some(p) => p,
            None => {
                return Err(ApiError::BadRequest("domicile_photo is required".to_owned()));
            },
        };
        let ktp_text = match self.ktp_text {
            Some(t) => t,
            None => String::new(),
        };
        let mut model = ActiveModel::new();
        model.user_id = ActiveValue::Changed(user_id);
        model.face_photo = ActiveValue::Changed(face_photo);
        model.ktp_photo = ActiveValue::Changed(ktp_photo);
        model.face_ktp_photo = ActiveValue::Changed(face_ktp_photo);
        model.domicile_photo = ActiveValue::Changed(domicile_photo);
        model.ktp_text = ActiveValue::Changed(Some(ktp_text));
        model.status = ActiveValue::Changed(VerificationStatus::Pending);
        Ok(model)
    }
}

} // verus!
