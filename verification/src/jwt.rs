//! Reading the expiry and subject claims of a token, and the claims of the
//! synthetic token that local development mode issues.

use vstd::prelude::*;
use crate::ids::{parse_uuid, uuid_parse, uuid_text};
use crate::time::{timestamp_in_range, utc_timestamp_representable};

verus! {

#[verifier::external_type_specification]
#[verifier::external_body]
pub struct ExJwtError(jsonwebtoken::errors::Error);

/// Why a claim could not be read from a token.
#[derive(Debug)]
pub enum TokenClaimsError {
    /// The token could not be decoded.
    Decode(jsonwebtoken::errors::Error),
    /// The token has no `exp` claim.
    MissingExpiration,
    /// The `exp` claim is outside the representable time range.
    InvalidExpiration(i64),
    /// The token has no `sub` claim.
    MissingSubject,
    /// The `sub` claim is not a UUID.
    InvalidSubject(String),
}

/// Seconds a synthetic token stays valid: one day.
pub const SYNTHETIC_TOKEN_LIFETIME: usize = 86400;

/// The claims of a synthetic local-development token.
pub struct SyntheticClaims {
    pub sub: String,
    pub exp: usize,
    pub iat: usize,
}

/// The expiry of a decoded token, in seconds since the Unix epoch: a decoding
/// failure is passed on, a missing `exp` and an `exp` that `chrono` cannot
/// represent are errors.
pub fn expiration_from_claim(decoded: Result<Option<i64>, jsonwebtoken::errors::Error>) -> (r:
    Result<i64, TokenClaimsError>)
    ensures
        decoded matches Err(e) ==> r == Err::<i64, TokenClaimsError>(TokenClaimsError::Decode(e)),
        decoded matches Ok(None) ==> r == Err::<i64, TokenClaimsError>(
            TokenClaimsError::MissingExpiration,
        ),
        decoded matches Ok(Some(exp)) ==> (timestamp_in_range(exp as int) ==> r == Ok::<
            i64,
            TokenClaimsError,
        >(exp)),
        decoded matches Ok(Some(exp)) ==> (!timestamp_in_range(exp as int) ==> r == Err::<
            i64,
            TokenClaimsError,
        >(TokenClaimsError::InvalidExpiration(exp))),
{
    match decoded {
        Err(e) => Err(TokenClaimsError::Decode(e)),
        Ok(None) => Err(TokenClaimsError::MissingExpiration),
        Ok(Some(exp)) => {
            if utc_timestamp_representable(exp) {
                Ok(exp)
            } else {
                Err(TokenClaimsError::InvalidExpiration(exp))
            }
        },
    }
}

/// The user a decoded token names: a decoding failure is passed on, a missing
/// `sub` is an error, and a `sub` that is not a UUID is returned in the error.
pub fn subject_from_claim(decoded: Result<Option<String>, jsonwebtoken::errors::Error>) -> (r:
    Result<u128, TokenClaimsError>)
    ensures
        decoded matches Err(e) ==> r == Err::<u128, TokenClaimsError>(TokenClaimsError::Decode(e)),
        decoded matches Ok(None) ==> r == Err::<u128, TokenClaimsError>(
            TokenClaimsError::MissingSubject,
        ),
        decoded matches Ok(Some(sub)) ==> match uuid_parse(sub@) {
            Some(id) => r == Ok::<u128, TokenClaimsError>(id),
            None => r matches Err(TokenClaimsError::InvalidSubject(s)) && s@ == sub@,
        },
        forall|id: u128|
            decoded matches Ok(Some(sub)) && #[trigger] uuid_text(id) == sub@ ==> r == Ok::<
                u128,
                TokenClaimsError,
            >(id),
{
    match decoded {
        Err(e) => Err(TokenClaimsError::Decode(e)),
        Ok(None) => Err(TokenClaimsError::MissingSubject),
        Ok(Some(sub)) => match parse_uuid(sub.as_str()) {
            Some(id) => Ok(id),
            None => Err(TokenClaimsError::InvalidSubject(sub)),
        },
    }
}

/// The claims of a synthetic token for `user_id` issued at `now`: valid for one day.
pub fn synthetic_claims(user_id: &str, now: usize) -> (c: SyntheticClaims)
    requires
        now + SYNTHETIC_TOKEN_LIFETIME <= usize::MAX,
    ensures
        c.sub@ == user_id@,
        c.iat == now,
        c.exp == now + SYNTHETIC_TOKEN_LIFETIME,
{
    SyntheticClaims { sub: crate::text::owned(user_id), iat: now, exp: now + SYNTHETIC_TOKEN_LIFETIME }
}

} // verus!
