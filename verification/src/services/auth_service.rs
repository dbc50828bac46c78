//! Issuing bearer tokens, and reading them back.
//!
//! A token is a JSON Web Token signed with HMAC-SHA256 under the service's
//! secret. Signing a token and checking its signature are `jsonwebtoken`'s
//! work. What the claims are, how long a token is good for, whether one is
//! still good at a given second, and what each outcome means to the service
//! is decided here.

use crate::config::authentication::Keys;
use crate::model::auth::claims::{JwtClaims, JwtClaimsView};
use crate::model::auth_error::AuthError;
use crate::util::now_epoch;
use vstd::prelude::*;

verus! {

/// The minutes for which a token is good: fifteen hours.
pub const ACCESS_EXP_MINUTES: usize = 15 * 60;

/// The seconds for which a token is good.
pub const ACCESS_EXP_SECONDS: usize = ACCESS_EXP_MINUTES * 60;

/// `jsonwebtoken::errors::Error`, which says why a token could not be signed
/// or was not accepted.
#[verifier::external_type_specification]
#[verifier::external_body]
pub struct ExJwtError(jsonwebtoken::errors::Error);

/// What the payload of an accepted token holds under the names `sub` and
/// `exp`: a text and a whole number that is not negative, each only where the
/// payload has one of that kind under that name.
pub struct TokenPayload {
    pub sub: Option<String>,
    pub exp: Option<u64>,
}

/// A `TokenPayload` with its text as a sequence of characters.
pub struct TokenPayloadView {
    pub sub: Option<Seq<char>>,
    pub exp: Option<u64>,
}

impl View for TokenPayload {
    type V = TokenPayloadView;

    open spec fn view(&self) -> TokenPayloadView {
        TokenPayloadView {
            sub: match self.sub {
                Some(text) => Some(text@),
                None => None,
            },
            exp: self.exp,
        }
    }
}

/// `jsonwebtoken::encode` with the default header, which asks for HMAC-SHA256,
/// a payload that holds `claims.sub` under `sub` and `claims.exp` under `exp`,
/// and `secret` as the key. A token that comes back is the header, the
/// payload and the signature joined by dots, so it is not empty. Which
/// signature it carries is left to the provider that `jsonwebtoken` signs
/// with in this process.
#[verifier::external_body]
fn sign_claims(claims: &JwtClaims, secret: &[u8]) -> (signed: Result<
    String,
    jsonwebtoken::errors::Error,
>)
    ensures
        signed matches Ok(token) ==> token@.len() > 0,
{
    let mut payload = serde_json::Map::new();
    payload.insert("sub".to_owned(), serde_json::Value::from(claims.sub.as_str()));
    payload.insert("exp".to_owned(), serde_json::Value::from(claims.exp));
    let key = jsonwebtoken::EncodingKey::from_secret(secret);
    jsonwebtoken::encode(&jsonwebtoken::Header::default(), &payload, &key)
}

/// `jsonwebtoken::decode` with `secret` as the key and the default
/// validation, but for the expiry, which is left to the caller: the token must
/// be signed with HMAC-SHA256 under the key and carry an `exp`. Whether the
/// signature is accepted is left to the provider that `jsonwebtoken` checks
/// with in this process, so nothing is claimed of the answer.
#[verifier::external_body]
fn check_token(token: &[u8], secret: &[u8]) -> (checked: Result<
    TokenPayload,
    jsonwebtoken::errors::Error,
>) {
    let key = jsonwebtoken::DecodingKey::from_secret(secret);
    let mut validation = jsonwebtoken::Validation::default();
    validation.validate_exp = false;
    let data = jsonwebtoken::decode::<serde_json::Value>(token, &key, &validation)?;
    Ok(
        TokenPayload {
            sub: data.claims.get("sub").and_then(serde_json::Value::as_str).map(str::to_owned),
            exp: data.claims.get("exp").and_then(serde_json::Value::as_u64),
        },
    )
}

/// What a client gets when it logs in.
#[derive(Debug, PartialEq, Eq)]
pub struct AuthBody {
    pub access_token: String,
    pub token_type: String,
}

impl Clone for AuthBody {
    fn clone(&self) -> (copy: Self)
        ensures
            copy == *self,
    {
        AuthBody { access_token: self.access_token.clone(), token_type: self.token_type.clone() }
    }
}

/// An `AuthBody` with its texts as sequences of characters.
pub struct AuthBodyView {
    pub access_token: Seq<char>,
    pub token_type: Seq<char>,
}

impl View for AuthBody {
    type V = AuthBodyView;

    open spec fn view(&self) -> AuthBodyView {
        AuthBodyView { access_token: self.access_token@, token_type: self.token_type@ }
    }
}

impl AuthBody {
    /// The body that hands out `access_token` as a bearer token.
    pub fn new(access_token: String) -> (body: Self)
        ensures
            body@ == (AuthBodyView { access_token: access_token@, token_type: "Bearer"@ }),
    {
        AuthBody { access_token, token_type: "Bearer".to_owned() }
    }
}

/// The claims of a token handed to `subject` at the second `now`, or nothing
/// where the second at which it would stop being good is past what the
/// machine can count to.
pub open spec fn claims_at(subject: Seq<char>, now: usize) -> Option<JwtClaimsView> {
    if now + ACCESS_EXP_SECONDS <= usize::MAX {
        Some(JwtClaimsView { sub: subject, exp: (now + ACCESS_EXP_SECONDS) as usize })
    } else {
        None
    }
}

/// The claims that an accepted token gives its bearer at the second `now`, or
/// nothing where the token does not say who its bearer is, does not say when
/// it stops being good, or is no longer good.
pub open spec fn claims_of(payload: TokenPayloadView, now: usize) -> Option<JwtClaimsView> {
    match (payload.sub, payload.exp) {
        (Some(sub), Some(exp)) => if now < exp <= usize::MAX {
            Some(JwtClaimsView { sub, exp: exp as usize })
        } else {
            None
        },
        _ => None,
    }
}

/// Issues tokens and reads them back, with the keys it was made with.
pub struct AuthService {
    keys: Keys,
}

impl AuthService {
    /// The keys that this service signs and checks with.
    pub closed spec fn keys(&self) -> Keys {
        self.keys
    }

    /// A service that signs and checks with `keys`.
    pub fn new(keys: Keys) -> (service: Self)
        ensures
            service.keys() == keys,
    {
        AuthService { keys }
    }

    /// The claims of a token handed to `user_id` at the second `now`: it is
    /// good for `ACCESS_EXP_SECONDS` from then on.
    pub fn claims_for(user_id: &str, now: usize) -> (claims: Option<JwtClaims>)
        ensures
            match claims_at(user_id@, now) {
                Some(view) => claims matches Some(made) && made@ == view,
                None => claims is None,
            },
            claims matches Some(made) ==> made.exp > now,
    {
        if now > usize::MAX - ACCESS_EXP_SECONDS {
            return None;
        }
        Some(JwtClaims { sub: user_id.to_owned(), exp: now + ACCESS_EXP_SECONDS })
    }

    /// What a client is answered when signing its token came to `signed`: the
    /// token as a bearer token, or `TokenCreation`.
    pub fn token_response(signed: Result<String, jsonwebtoken::errors::Error>) -> (res: Result<
        AuthBody,
        AuthError,
    >)
        ensures
            signed matches Ok(token) ==> res matches Ok(body) && body@ == (AuthBodyView {
                access_token: token@,
                token_type: "Bearer"@,
            }),
            signed is Err ==> res == Err::<AuthBody, AuthError>(AuthError::TokenCreation),
    {
        match signed {
            Ok(token) => Ok(AuthBody::new(token)),
            Err(_) => Err(AuthError::TokenCreation),
        }
    }

    /// A token for `user_id`, issued at the second `now`.
    pub fn issue_token(&self, user_id: &str, now: usize) -> (res: Result<AuthBody, AuthError>)
        ensures
            res matches Ok(body) ==> {
                &&& claims_at(user_id@, now) is Some
                &&& body@.token_type == "Bearer"@
                &&& body@.access_token.len() > 0
            },
            res matches Err(error) ==> error == AuthError::TokenCreation,
            claims_at(user_id@, now) is None ==> res is Err,
    {
        match Self::claims_for(user_id, now) {
            Some(claims) => Self::token_response(sign_claims(&claims, self.keys.as_bytes())),
            None => Err(AuthError::TokenCreation),
        }
    }

    /// A token for `user_id`, issued now.
    pub fn generate_tokens(&self, user_id: &str) -> (res: Result<AuthBody, AuthError>)
        ensures
            res matches Ok(body) ==> body@.token_type == "Bearer"@ && body@.access_token.len()
                > 0,
            res matches Err(error) ==> error == AuthError::TokenCreation,
    {
        self.issue_token(user_id, now_epoch())
    }

    /// What an accepted or refused token means at the second `now`: the
    /// claims of its bearer, where it was accepted, says who its bearer is
    /// and stops being good later than `now`, and `InvalidToken` otherwise.
    pub fn accept(checked: Result<TokenPayload, jsonwebtoken::errors::Error>, now: usize) -> (res:
        Result<JwtClaims, AuthError>)
        ensures
            checked matches Ok(payload) ==> {
                match claims_of(payload@, now) {
                    Some(view) => res matches Ok(claims) && claims@ == view,
                    None => res == Err::<JwtClaims, AuthError>(AuthError::InvalidToken),
                }
            },
            checked is Err ==> res == Err::<JwtClaims, AuthError>(AuthError::InvalidToken),
            res matches Ok(claims) ==> claims.exp > now,
    {
        match checked {
            Ok(payload) => {
                match (payload.sub, payload.exp) {
                    (Some(sub), Some(exp)) => {
                        if exp > usize::MAX as u64 {
                            return Err(AuthError::InvalidToken);
                        }
                        let exp: usize = exp as usize;
                        if exp <= now {
                            return Err(AuthError::InvalidToken);
                        }
                        Ok(JwtClaims { sub, exp })
                    },
                    _ => Err(AuthError::InvalidToken),
                }
            },
            Err(_) => Err(AuthError::InvalidToken),
        }
    }

    /// The claims that `token` gives its bearer at the second `now`, or
    /// `InvalidToken`.
    pub fn read_token(&self, token: &[u8], now: usize) -> (res: Result<JwtClaims, AuthError>)
        ensures
            res matches Ok(claims) ==> claims.exp > now,
            res matches Err(error) ==> error == AuthError::InvalidToken,
    {
        Self::accept(check_token(token, self.keys.as_bytes()), now)
    }
}

} // verus!
