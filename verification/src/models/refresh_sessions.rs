use vstd::prelude::*;
use crate::text::{hex_lower, push_hex_lower, lemma_hex_lower_injective, lemma_hex_lower_len};
use sha2::Digest;

verus! {

/// What `sha2::Sha256` digests `data` to.
pub uninterp spec fn sha256_of(data: Seq<u8>) -> Seq<u8>;

/// `sha2::Sha256::digest`: the SHA-256 digest of `data`, which is 32 bytes
/// long (the output size of SHA-256). Nothing more is claimed of its value
/// than that it is what `sha256_of` names for `data`.
#[verifier::external_body]
fn sha256_digest(data: &[u8]) -> (res: Vec<u8>)
    ensures
        res@ == sha256_of(data@),
        res@.len() == 32,
{
    sha2::Sha256::digest(data).to_vec()
}

/// The text form of a token's hash: SHA-256 of its UTF-8 bytes, in
/// lowercase hex.
pub open spec fn token_hash_text(token: Seq<char>) -> Seq<char> {
    hex_lower(sha256_of(vstd::utf8::encode_utf8(token)))
}

/// The stored hash covers the whole token: two tokens get the same stored
/// hash exactly when the SHA-256 digests of their complete UTF-8 bytes agree.
pub proof fn law_token_hash_covers_the_whole_token(a: Seq<char>, b: Seq<char>)
    ensures
        token_hash_text(a) == token_hash_text(b) <==> sha256_of(vstd::utf8::encode_utf8(a)) == sha256_of(
            vstd::utf8::encode_utf8(b),
        ),
{
    if token_hash_text(a) == token_hash_text(b) {
        lemma_hex_lower_injective(
            sha256_of(vstd::utf8::encode_utf8(a)),
            sha256_of(vstd::utf8::encode_utf8(b)),
        );
    }
}

/// Hashes a refresh token for storage: the lowercase hex SHA-256 of its
/// bytes, 64 characters long.
pub fn hash_token(token: &str) -> (res: String)
    ensures
        res@ == token_hash_text(token@),
        res@ == hex_lower(sha256_of(vstd::utf8::encode_utf8(token@))),
        res@.len() == 64,
{
    let digest = sha256_digest(token.as_bytes());
    let mut res = String::new();
    push_hex_lower(&mut res, digest.as_slice());
    proof {
        assert(res@ =~= hex_lower(digest@));
        lemma_hex_lower_len(digest@);
    }
    res
}

/// The columns of a new refresh session that the library fills in; the
/// expiry instant is set alongside by the caller.
pub struct ActiveModel {
    pub user_id: i32,
    pub jti: String,
    pub token_hash: String,
    pub revoked: bool,
    pub revoked_at: Option<String>,
}

impl ActiveModel {
    /// A fresh, unrevoked session for `user_id` that stores the hash of
    /// `token`, never the token itself.
    pub fn new_session(user_id: i32, token: &str, jti: String) -> (res: Self)
        ensures
            res.user_id == user_id,
            res.jti@ == jti@,
            res.token_hash@ == token_hash_text(token@),
            !res.revoked,
            res.revoked_at is None,
    {
        ActiveModel {
            user_id,
            jti,
            token_hash: hash_token(token),
            revoked: false,
            revoked_at: None,
        }
    }
}

} // verus!
