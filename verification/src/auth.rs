//! The credential gate: who may use the protected routes.

use vstd::prelude::*;

use crate::http::Status;

verus! {

/// Whoever presented a bearer token that verified, under the name that the
/// token claims.
#[derive(Clone, Debug, PartialEq, Eq)]
pub struct Admin {
    pub username: String,
}

/// Why a request was turned away.
#[derive(Clone, Copy, Debug, PartialEq, Eq)]
pub enum AuthError {
    /// No token, or none that verifies.
    Unauthorized,
}

impl AuthError {
    /// The status that the error is answered with.
    pub open spec fn spec_status(&self) -> Status {
        Status::Unauthorized
    }

    /// The status that the error is answered with.
    #[verifier::when_used_as_spec(spec_status)]
    pub fn status(&self) -> (status: Status)
        ensures
            status == self.spec_status(),
    {
        Status::Unauthorized
    }
}

/// `jsonwebtoken::decode` with `Validation::default()` and the secret as an
/// HMAC key, then `serde_json::Value::get` and `as_str` on the claims: the
/// text of the claim `claim`, where the token is signed with the secret by
/// HS256, carries an expiry that has not passed by the clock of this machine,
/// names no audience, and holds that claim as a string; `None` otherwise. The
/// clock decides with the arguments, so nothing is stated of the result. The
/// call returns for every token and secret as long as the clock stands past
/// the first minute of 1970.
#[verifier::external_body]
pub(crate) fn decode_claim(token: &str, secret: &str, claim: &str) -> (text: Option<String>) {
    let key = jsonwebtoken::DecodingKey::from_secret(secret.as_bytes());
    let validation = jsonwebtoken::Validation::default();
    match jsonwebtoken::decode::<serde_json::Value>(token, &key, &validation) {
        Ok(data) => data.claims.get(claim).and_then(|value| value.as_str()).map(String::from),
        Err(_) => None,
    }
}

/// What becomes of a verified token's identity: any identity passes,
/// whatever it is; no identity does not.
pub open spec fn granted(identity: Option<String>) -> Result<Admin, AuthError> {
    match identity {
        Some(username) => Ok(Admin { username }),
        None => Err(AuthError::Unauthorized),
    }
}

/// Lets the bearer of a verified token pass, under the identity that the
/// token claims. The identity is held against no list.
pub fn grant(identity: Option<String>) -> (gate: Result<Admin, AuthError>)
    ensures
        gate == granted(identity),
{
    match identity {
        Some(username) => Ok(Admin { username }),
        None => Err(AuthError::Unauthorized),
    }
}

/// Verifies a bearer token against the secret and lets its bearer pass. A
/// request without a token is turned away; one with a token passes exactly
/// when the token verifies and claims an identity.
pub fn authenticate(bearer: Option<&str>, secret: &str) -> (gate: Result<Admin, AuthError>)
    ensures
        bearer is None ==> gate == Err::<Admin, AuthError>(AuthError::Unauthorized),
        gate is Err ==> gate == Err::<Admin, AuthError>(AuthError::Unauthorized),
{
    match bearer {
        Some(token) => grant(decode_claim(token, secret, "username")),
        None => Err(AuthError::Unauthorized),
    }
}

} // verus!
