//! The service that checks client tokens against the application secret.
//!
//! A client may only signal an offer with a JSON Web Token that the
//! issuing application signed with the shared secret (`APP_KEY`) using
//! HMAC-SHA256.
use vstd::prelude::*;

verus! {

/// Whether `token` is a JWT of three dot-separated parts whose header names
/// `HS256` and whose last part is the (base64url) HMAC-SHA256 of the first
/// two parts under the UTF-8 bytes of `secret`. No clock is involved.
pub uninterp spec fn hs256_authentic(token: Seq<char>, secret: Seq<char>) -> bool;

/// `jsonwebtoken::decode` with `Validation::new(Algorithm::HS256)`: accepts
/// only a token whose header algorithm is HS256, whose signature verifies
/// under `secret`, and whose `exp` claim is present and not past (with the
/// crate's 60 s leeway, read from the system clock). The claims themselves
/// are skipped (`IgnoredAny`).
///
/// The contract states only that acceptance implies an authentic signature:
/// the converse does not hold, since expiry depends on the clock and a
/// malformed claims part is refused too. (`jsonwebtoken` panics only when the
/// system clock is set before 1970.)
#[verifier::external_body]
pub fn jwt_hs256_accepts(token: &str, secret: &str) -> (ok: bool)
    ensures
        ok ==> hs256_authentic(token@, secret@),
{
    jsonwebtoken::decode::<serde::de::IgnoredAny>(
        token,
        &jsonwebtoken::DecodingKey::from_secret(secret.as_bytes()),
        &jsonwebtoken::Validation::new(jsonwebtoken::Algorithm::HS256),
    ).is_ok()
}

/// Holds the secret shared with the application that signs client tokens
/// (HMAC-SHA256).
#[derive(Debug, Clone)]
pub struct DecodeService {
    pub app_secret: String,
}

impl DecodeService {
    pub fn new(app_secret: String) -> (r: Self)
        ensures
            r.app_secret@ == app_secret@,
    {
        DecodeService { app_secret }
    }

    /// Whether `token` passes the service's check: only tokens signed with
    /// the service's secret under HS256 (and not expired) are accepted.
    pub fn accepts(&self, token: &str) -> (ok: bool)
        ensures
            ok ==> hs256_authentic(token@, self.app_secret@),
    {
        jwt_hs256_accepts(token, self.app_secret.as_str())
    }
}

} // verus!
