use vstd::prelude::*;
use super::ActiveValue;
use crate::error::{ApiError, bad_request, bad_request_with};
use aes_gcm::aead::{Aead, KeyInit};
use base64::Engine;
use rand::RngCore;

verus! {

/// Where a seller stands in the verification process.
#[derive(Debug, Clone, Copy, PartialEq, Eq, Structural)]
pub enum VerificationStatus {
    Pending,
    Approved,
    Rejected,
}

/// A seller verification request, as stored.
#[derive(Debug)]
pub struct Model {
    pub id: i32,
    pub user_id: i32,
    pub face_photo: String,
    pub ktp_photo: String,
    pub face_ktp_photo: String,
    pub domicile_photo: String,
    pub ktp_text: Option<String>,
    pub status: VerificationStatus,
    pub reject_reason: Option<String>,
}

/// The same row being written, column by column.
#[derive(Debug)]
pub struct ActiveModel {
    pub id: ActiveValue<i32>,
    pub user_id: ActiveValue<i32>,
    pub face_photo: ActiveValue<String>,
    pub ktp_photo: ActiveValue<String>,
    pub face_ktp_photo: ActiveValue<String>,
    pub domicile_photo: ActiveValue<String>,
    pub ktp_text: ActiveValue<Option<String>>,
    pub status: ActiveValue<VerificationStatus>,
    pub reject_reason: ActiveValue<Option<String>>,
}

impl ActiveModel {
    /// A row with no column set.
    pub fn new() -> (res: Self)
        ensures
            res.id is NotSet,
            res.user_id is NotSet,
            res.face_photo is NotSet,
            res.ktp_photo is NotSet,
            res.face_ktp_photo is NotSet,
            res.domicile_photo is NotSet,
            res.ktp_text is NotSet,
            res.status is NotSet,
            res.reject_reason is NotSet,
    {
        ActiveModel {
            id: ActiveValue::NotSet,
            user_id: ActiveValue::NotSet,
            face_photo: ActiveValue::NotSet,
            ktp_photo: ActiveValue::NotSet,
            face_ktp_photo: ActiveValue::NotSet,
            domicile_photo: ActiveValue::NotSet,
            ktp_text: ActiveValue::NotSet,
            status: ActiveValue::NotSet,
            reject_reason: ActiveValue::NotSet,
        }
    }
}

impl Model {
    /// The stored row as a row to write back: every column unchanged.
    pub open spec fn unchanged(self) -> ActiveModel {
        ActiveModel {
            id: ActiveValue::Unchanged(self.id),
            user_id: ActiveValue::Unchanged(self.user_id),
            face_photo: ActiveValue::Unchanged(self.face_photo),
            ktp_photo: ActiveValue::Unchanged(self.ktp_photo),
            face_ktp_photo: ActiveValue::Unchanged(self.face_ktp_photo),
            domicile_photo: ActiveValue::Unchanged(self.domicile_photo),
            ktp_text: ActiveValue::Unchanged(self.ktp_text),
            status: ActiveValue::Unchanged(self.status),
            reject_reason: ActiveValue::Unchanged(self.reject_reason),
        }
    }

    /// The stored row as a row to write back (see `unchanged`).
    pub fn into_active_model(self) -> (res: ActiveModel)
        ensures
            res == self.unchanged(),
    {
        ActiveModel {
            id: ActiveValue::Unchanged(self.id),
            user_id: ActiveValue::Unchanged(self.user_id),
            face_photo: ActiveValue::Unchanged(self.face_photo),
            ktp_photo: ActiveValue::Unchanged(self.ktp_photo),
            face_ktp_photo: ActiveValue::Unchanged(self.face_ktp_photo),
            domicile_photo: ActiveValue::Unchanged(self.domicile_photo),
            ktp_text: ActiveValue::Unchanged(self.ktp_text),
            status: ActiveValue::Unchanged(self.status),
            reject_reason: ActiveValue::Unchanged(self.reject_reason),
        }
    }
}



/// The most plaintext AES-GCM accepts: 2^36 bytes.
pub const AES_GCM_MAX_PLAINTEXT: u64 = 0x10_0000_0000;

/// What `aes_gcm::Aes256Gcm` under `key` seals `plaintext` to with `nonce`
/// and no associated data: the ciphertext followed by the 16-byte tag.
pub uninterp spec fn aes256gcm_sealed(key: Seq<u8>, nonce: Seq<u8>, plaintext: Seq<u8>) -> Seq<u8>;

/// What `aes_gcm::Aes256Gcm` under `key` opens `ciphertext` to with `nonce`:
/// the plaintext, or `None` when the tag does not authenticate it.
pub uninterp spec fn aes256gcm_opened(key: Seq<u8>, nonce: Seq<u8>, ciphertext: Seq<u8>) -> Option<
    Seq<u8>,
>;

/// The character of a 6-bit value in the standard Base64 alphabet:
/// 'A'..='Z', 'a'..='z', '0'..='9', '+', '/'.
pub open spec fn base64_char(v: nat) -> char {
    if v < 26 {
        (65 + v) as char
    } else if v < 52 {
        (97 + (v - 26)) as char
    } else if v < 62 {
        (48 + (v - 52)) as char
    } else if v == 62 {
        '+'
    } else {
        '/'
    }
}

/// Standard Base64 with padding: each group of three bytes becomes four
/// characters of six bits each; a last group of one or two bytes is padded
/// with zero bits and then '=' to four characters.
pub open spec fn base64_encoded(b: Seq<u8>) -> Seq<char>
    decreases b.len(),
{
    if b.len() == 0 {
        Seq::empty()
    } else if b.len() == 1 {
        seq![base64_char((b[0] / 4) as nat), base64_char(((b[0] % 4) * 16) as nat), '=', '=']
    } else if b.len() == 2 {
        seq![
            base64_char((b[0] / 4) as nat),
            base64_char(((b[0] % 4) * 16 + b[1] / 16) as nat),
            base64_char(((b[1] % 16) * 4) as nat),
            '=',
        ]
    } else {
        seq![
            base64_char((b[0] / 4) as nat),
            base64_char(((b[0] % 4) * 16 + b[1] / 16) as nat),
            base64_char(((b[1] % 16) * 4 + b[2] / 64) as nat),
            base64_char((b[2] % 64) as nat),
        ] + base64_encoded(b.subrange(3, b.len() as int))
    }
}

/// What `base64::engine::general_purpose::STANDARD` decodes `text` to: the
/// bytes, or the text of the `DecodeError` it reports.
pub uninterp spec fn base64_decoded(text: Seq<char>) -> Result<Seq<u8>, Seq<char>>;

/// `Aes256Gcm::new_from_slice` then `Aead::encrypt`, without associated
/// data. The key is 32 bytes and the nonce 12, so building the cipher cannot
/// fail; encryption fails only on a plaintext longer than 2^36 bytes, and then
/// with `aead::Error`, whose text is "aead::Error". What the ciphertext is
/// is only named; the facts claimed of it are that it is the plaintext
/// encrypted in place followed by the 16-byte tag (so 16 bytes longer), and
/// AES-GCM's own: opening it under the same key and nonce gives back the
/// plaintext.
#[verifier::external_body]
fn aes256gcm_encrypt(key: &[u8], nonce: &[u8], plaintext: &[u8]) -> (res: Result<Vec<u8>, String>)
    requires
        key@.len() == 32,
        nonce@.len() == 12,
    ensures
        res is Ok <==> plaintext@.len() <= AES_GCM_MAX_PLAINTEXT,
        res matches Ok(ct) ==> ct@ == aes256gcm_sealed(key@, nonce@, plaintext@) && ct@.len()
            == plaintext@.len() + 16 && aes256gcm_opened(key@, nonce@, ct@) == Some(plaintext@),
        res matches Err(e) ==> e@ == "aead::Error"@,
{
    let cipher = aes_gcm::Aes256Gcm::new_from_slice(key).map_err(|e| e.to_string())?;
    cipher.encrypt(aes_gcm::Nonce::from_slice(nonce), plaintext).map_err(|e| e.to_string())
}

/// `Aes256Gcm::new_from_slice` then `Aead::decrypt`, without associated
/// data: the plaintext, or `aead::Error` (text "aead::Error") when the
/// ciphertext does not authenticate.
#[verifier::external_body]
fn aes256gcm_decrypt(key: &[u8], nonce: &[u8], ciphertext: &[u8]) -> (res: Result<
    Vec<u8>,
    String,
>)
    requires
        key@.len() == 32,
        nonce@.len() == 12,
    ensures
        res is Ok <==> aes256gcm_opened(key@, nonce@, ciphertext@) is Some,
        res matches Ok(pt) ==> aes256gcm_opened(key@, nonce@, ciphertext@) == Some(pt@),
        res matches Err(e) ==> e@ == "aead::Error"@,
{
    let cipher = aes_gcm::Aes256Gcm::new_from_slice(key).map_err(|e| e.to_string())?;
    cipher.decrypt(aes_gcm::Nonce::from_slice(nonce), ciphertext).map_err(|e| e.to_string())
}

/// `STANDARD.encode`: the padded standard Base64 text of `bytes` (see
/// `base64_encoded`), which `STANDARD.decode` turns back into `bytes`.
#[verifier::external_body]
fn base64_encode(bytes: &[u8]) -> (res: String)
    ensures
        res@ == base64_encoded(bytes@),
        base64_decoded(res@) is Ok && base64_decoded(res@)->Ok_0 == bytes@,
{
    base64::engine::general_purpose::STANDARD.encode(bytes)
}

/// `STANDARD.decode`: the bytes that `text` encodes, or the display text of
/// the `DecodeError`.
#[verifier::external_body]
fn base64_decode(text: &str) -> (res: Result<Vec<u8>, String>)
    ensures
        match base64_decoded(text@) {
            Ok(bytes) => res matches Ok(v) && v@ == bytes,
            Err(message) => res matches Err(m) && m@ == message,
        },
{
    base64::engine::general_purpose::STANDARD.decode(text).map_err(|e| e.to_string())
}

/// `rand::rng().fill_bytes` on a 12-byte buffer: a fresh random nonce. Its
/// bytes are chance; only its length is claimed.
#[verifier::external_body]
fn random_nonce() -> (res: Vec<u8>)
    ensures
        res@.len() == 12,
{
    let mut nonce = [0u8; 12];
    rand::rng().fill_bytes(&mut nonce);
    nonce.to_vec()
}

/// The 32-byte AES-256 key made from the bytes of a key string: its first
/// 32 bytes, padded with zero bytes when it is shorter.
pub open spec fn fixed_key(key: Seq<u8>) -> Seq<u8> {
    Seq::new(32, |i: int| if i < key.len() { key[i] } else { 0u8 })
}

/// The UTF-8 bytes of a string.
pub open spec fn utf8(s: Seq<char>) -> Seq<u8> {
    vstd::utf8::encode_utf8(s)
}

/// The sealed form of `data` under `key` with `nonce`: the nonce followed by
/// the AES-256-GCM ciphertext, in standard Base64.
pub open spec fn sealed_text(data: Seq<u8>, key: Seq<char>, nonce: Seq<u8>) -> Seq<char> {
    base64_encoded(nonce + aes256gcm_sealed(fixed_key(utf8(key)), nonce, data))
}

/// What decrypting `text` under `key` gives: the plaintext, or the message of
/// the `BadRequest` it fails with.
pub open spec fn decrypted(text: Seq<char>, key: Seq<char>) -> Result<Seq<u8>, Seq<char>> {
    match base64_decoded(text) {
        Err(e) => Err("Decode error: "@ + e),
        Ok(combined) => if combined.len() < 12 {
            Err("Invalid encrypted data"@)
        } else {
            match aes256gcm_opened(
                fixed_key(utf8(key)),
                combined.subrange(0, 12),
                combined.subrange(12, combined.len() as int),
            ) {
                Some(plaintext) => Ok(plaintext),
                None => Err("Decryption error: "@ + "aead::Error"@),
            }
        },
    }
}

/// Builds the 32-byte key from a key string's bytes.
fn make_key(key_str: &str) -> (key: Vec<u8>)
    ensures
        key@ == fixed_key(utf8(key_str@)),
{
    let bytes = key_str.as_bytes();
    let mut key: Vec<u8> = Vec::new();
    let mut i: usize = 0;
    while i < 32
        invariant
            i <= 32,
            bytes@ == utf8(key_str@),
            key@.len() == i,
            forall|j: int| 0 <= j < i ==> key@[j] == fixed_key(bytes@)[j],
        decreases 32 - i,
    {
        if i < bytes.len() {
            key.push(bytes[i]);
        } else {
            key.push(0u8);
        }
        i = i + 1;
    }
    assert(key@ =~= fixed_key(bytes@));
    key
}

impl Model {
    /// Seals `data` under `key_str`: a fresh random 12-byte nonce, then the
    /// AES-256-GCM ciphertext of `data` under the key string's first 32 bytes
    /// (zero-padded) with its 16-byte tag, the three together in standard
    /// Base64, so that the text decodes to 12 + `data.len()` + 16 bytes.
    /// Whatever nonce was drawn, `decrypt_data` with the same key gives
    /// `data` back.
    pub fn encrypt_data(data: &[u8], key_str: &str) -> (res: Result<String, ApiError>)
        ensures
            res is Ok <==> data@.len() <= AES_GCM_MAX_PLAINTEXT,
            res matches Ok(text) ==> exists|nonce: Seq<u8>|
                nonce.len() == 12 && text@ == #[trigger] sealed_text(data@, key_str@, nonce),
            res matches Ok(text) ==> decrypted(text@, key_str@) matches Ok(plaintext) && plaintext
                == data@,
            res matches Ok(text) ==> base64_decoded(text@) matches Ok(sealed) && sealed.len() == 12
                + data@.len() + 16,
            res matches Err(e) ==> e matches ApiError::BadRequest(m) && m@
                == "Encryption error: "@ + "aead::Error"@,
    {
        let key = make_key(key_str);
        let nonce = random_nonce();
        match aes256gcm_encrypt(key.as_slice(), nonce.as_slice(), data) {
            Err(e) => Err(bad_request_with("Encryption error: ", e.as_str())),
            Ok(ciphertext) => {
                let mut combined = nonce.clone();
                let mut rest = ciphertext;
                let ghost ct = rest@;
                combined.append(&mut rest);
                let text = base64_encode(combined.as_slice());
                proof {
                    assert(combined@ == nonce@ + ct);
                    assert(text@ == sealed_text(data@, key_str@, nonce@));
                    assert(combined@.subrange(0, 12) =~= nonce@);
                    assert(combined@.subrange(12, combined@.len() as int) =~= ct);
                }
                Ok(text)
            },
        }
    }

    /// Opens what `encrypt_data` sealed: decodes the Base64, splits off the
    /// 12-byte nonce and decrypts the rest under the key string's first 32
    /// bytes (zero-padded).
    pub fn decrypt_data(encrypted_base64: &str, key_str: &str) -> (res: Result<Vec<u8>, ApiError>)
        ensures
            match decrypted(encrypted_base64@, key_str@) {
                Ok(plaintext) => res matches Ok(v) && v@ == plaintext,
                Err(message) => res matches Err(ApiError::BadRequest(m)) && m@ == message,
            },
    {
        let combined = match base64_decode(encrypted_base64) {
            Ok(v) => v,
            Err(e) => {
                return Err(bad_request_with("Decode error: ", e.as_str()));
            },
        };
        if combined.len() < 12 {
            return Err(bad_request("Invalid encrypted data"));
        }
        let mut nonce: Vec<u8> = Vec::new();
        let mut ciphertext: Vec<u8> = Vec::new();
        let mut i: usize = 0;
        while i < combined.len()
            invariant
                12 <= combined@.len(),
                i <= combined@.len(),
                i <= 12 ==> nonce@ == combined@.subrange(0, i as int) && ciphertext@.len() == 0,
                i > 12 ==> nonce@ == combined@.subrange(0, 12) && ciphertext@
                    == combined@.subrange(12, i as int),
            decreases combined@.len() - i,
        {
            if i < 12 {
                nonce.push(combined[i]);
            } else {
                ciphertext.push(combined[i]);
            }
            proof {
                if i < 12 {
                    assert(nonce@ =~= combined@.subrange(0, i + 1));
                } else {
                    assert(ciphertext@ =~= combined@.subrange(12, i + 1));
                }
            }
            i = i + 1;
        }
        proof {
            if combined@.len() == 12 {
                assert(combined@.subrange(12, 12) =~= Seq::<u8>::empty());
                assert(ciphertext@ =~= combined@.subrange(12, 12));
            }
        }
        let key = make_key(key_str);
        match aes256gcm_decrypt(key.as_slice(), nonce.as_slice(), ciphertext.as_slice()) {
            Ok(plaintext) => Ok(plaintext),
            Err(e) => Err(bad_request_with("Decryption error: ", e.as_str())),
        }
    }
}

} // verus!
