//! Signed session tokens (JWT, HS256): the claims they carry, issuing them,
//! and reading the role claim back.

use vstd::prelude::*;
use crate::role::{parse_role, role_name, role_of_name, UserRole};
use crate::text::{decimal, decimal_string, json_string, quote_json};

verus! {

#[verifier::external_type_specification]
#[verifier::external_body]
pub struct ExJwtError(jsonwebtoken::errors::Error);

/// The claims of an issued token: the user name and the expiry time.
pub struct Claims {
    pub sub: String,
    pub exp: u64,
}

/// The expiry time written into every issued token.
pub const TOKEN_EXPIRY: u64 = 10000000000;

/// The claims as compact JSON, fields in declaration order:
/// `{"sub":<sub>,"exp":<exp>}`.
pub open spec fn claims_json_spec(sub: Seq<char>, exp: nat) -> Seq<char> {
    "{\"sub\":"@ + json_string(sub) + ",\"exp\":"@ + decimal(exp) + "}"@
}

/// `p` is the claims text of some user name and expiry time: a JSON object.
pub open spec fn is_claims_json(p: Seq<char>) -> bool {
    exists|sub: Seq<char>, exp: nat| p == #[trigger] claims_json_spec(sub, exp)
}

/// The token that `jsonwebtoken::encode` produces with the default header
/// (HS256, type JWT) for the claims JSON text `payload`, signed with the UTF-8
/// bytes of `secret`.
pub uninterp spec fn jwt_hs256_token(payload: Seq<char>, secret: Seq<char>) -> Seq<char>;

/// The claims that `jsonwebtoken::decode::<serde_json::Value>` with key
/// `secret` (its UTF-8 bytes) and `Validation::new(Algorithm::HS256)` reads
/// from `token`, leaving the time checks aside: `None` where `token` is not a
/// JWT whose header names HS256, whose HS256 signature verifies under the key
/// and whose claims are JSON; otherwise the claims' `sub` member where it is a
/// JSON string, `exp` where it is an integer that fits a `u64`, and `role`
/// where it is a JSON string.
pub uninterp spec fn jwt_hs256_claims(token: Seq<char>, secret: Seq<char>) -> Option<
    (Option<Seq<char>>, Option<u64>, Option<Seq<char>>),
>;

/// A token that could not be issued or was not accepted.
pub struct TokenError;

/// The claims of an accepted token that the services read: each is `None`
/// where the token lacks it, or holds it with another JSON type.
pub struct ClaimFields {
    pub sub: Option<String>,
    pub exp: Option<u64>,
    pub role: Option<String>,
}

/// The claims read from a token, as plain values.
pub open spec fn claim_fields_view(c: ClaimFields) -> (
    Option<Seq<char>>,
    Option<u64>,
    Option<Seq<char>>,
) {
    (
        match c.sub {
            Some(s) => Some(s@),
            None => None,
        },
        c.exp,
        match c.role {
            Some(s) => Some(s@),
            None => None,
        },
    )
}

/// `jsonwebtoken::encode(&Header::default(), claims, &EncodingKey::from_secret(secret.as_bytes()))`,
/// where `claims` is the JSON text `payload` taken as it stands
/// (`serde_json::value::RawValue`). Trusted: a token that comes back is the
/// one `jwt_hs256_token` names for these arguments, and claims text (a JSON
/// object of a quoted, escaped string and a decimal number) always gives a
/// token: `RawValue::from_string` fails only on text that is not JSON, the
/// header and raw claims serialize without error, and HS256 signing with any
/// key cannot fail. Decoding such a token with the same key reads back the
/// user name and expiry it was issued with, and no role (`decode` checks the
/// HS256 header and signature that `encode` wrote, and parses the same JSON).
/// When an error comes back for other text is not stated.
#[verifier::external_body]
fn encode_token(payload: &str, secret: &str) -> (r: Result<String, jsonwebtoken::errors::Error>)
    ensures
        r matches Ok(t) ==> t@ == jwt_hs256_token(payload@, secret@),
        is_claims_json(payload@) ==> r is Ok,
        r matches Ok(t) ==> forall|sub: Seq<char>, exp: u64|
            payload@ == #[trigger] claims_json_spec(sub, exp as nat) ==> jwt_hs256_claims(
                t@,
                secret@,
            ) == Some((Some(sub), Some(exp), None::<Seq<char>>)),
{
    let claims = serde_json::value::RawValue::from_string(payload.to_string())?;
    jsonwebtoken::encode(
        &jsonwebtoken::Header::default(),
        &claims,
        &jsonwebtoken::EncodingKey::from_secret(secret.as_bytes()),
    )
}

/// `jsonwebtoken::decode::<serde_json::Value>(token, &DecodingKey::from_secret(secret.as_bytes()),
/// &Validation::new(Algorithm::HS256))`, keeping of the claims the members
/// `sub` and `role` where they are JSON strings and `exp` where it is an
/// integer that fits a `u64`. Trusted: an accepted token gives the claims that
/// `jwt_hs256_claims` names (the checks of the `exp` claim against the current
/// time only turn acceptances into errors); a token that is not a signed JWT
/// under the key, and any text without a `.` (decode splits the token at its
/// dots first), give an error. Whether a signed token is still unexpired at
/// the moment of the call is not stated.
#[verifier::external_body]
fn decode_claims(token: &str, secret: &str) -> (r: Result<ClaimFields, jsonwebtoken::errors::Error>)
    ensures
        r matches Ok(c) ==> jwt_hs256_claims(token@, secret@) == Some(claim_fields_view(c)),
        jwt_hs256_claims(token@, secret@) is None ==> r is Err,
        !token@.contains('.') ==> r is Err,
{
    let data = jsonwebtoken::decode::<serde_json::Value>(
        token,
        &jsonwebtoken::DecodingKey::from_secret(secret.as_bytes()),
        &jsonwebtoken::Validation::new(jsonwebtoken::Algorithm::HS256),
    )?;
    let claims = &data.claims;
    Ok(ClaimFields {
        sub: claims.get("sub").and_then(serde_json::Value::as_str).map(str::to_string),
        exp: claims.get("exp").and_then(serde_json::Value::as_u64),
        role: claims.get("role").and_then(serde_json::Value::as_str).map(str::to_string),
    })
}

/// The claims as the JSON text that is signed.
pub fn claims_json(claims: &Claims) -> (s: String)
    ensures
        s@ == claims_json_spec(claims.sub@, claims.exp as nat),
{
    let mut s = String::from_str("{\"sub\":");
    let quoted = quote_json(claims.sub.as_str());
    s.append(quoted.as_str());
    s.append(",\"exp\":");
    let n = decimal_string(claims.exp);
    s.append(n.as_str());
    s.append("}");
    s
}

/// The claims an issued token carries for `username`: the user name, the
/// expiry time `TOKEN_EXPIRY`, and no role.
pub open spec fn issued_claims(username: Seq<char>) -> Option<
    (Option<Seq<char>>, Option<u64>, Option<Seq<char>>),
> {
    Some((Some(username), Some(TOKEN_EXPIRY), None))
}

/// Issues a token for `username`, expiring at `TOKEN_EXPIRY`, signed with
/// `secret`; this always succeeds, and decoding the token with the same key
/// reads back the user name and expiry time.
pub fn get_token(username: String, secret: &str) -> (r: Result<String, TokenError>)
    ensures
        r is Ok,
        r matches Ok(t) ==> t@ == jwt_hs256_token(
            claims_json_spec(username@, TOKEN_EXPIRY as nat),
            secret@,
        ),
        r matches Ok(t) ==> jwt_hs256_claims(t@, secret@) == issued_claims(username@),
{
    let ghost name = username@;
    let claims = Claims { sub: username, exp: TOKEN_EXPIRY };
    let payload = claims_json(&claims);
    assert(is_claims_json(payload@)) by {
        assert(payload@ == claims_json_spec(claims.sub@, TOKEN_EXPIRY as nat));
    }
    match encode_token(payload.as_str(), secret) {
        Ok(t) => {
            assert(payload@ == claims_json_spec(name, TOKEN_EXPIRY as nat));
            Ok(t)
        },
        Err(_) => Err(TokenError),
    }
}

/// The role name of a token's claims where the token is granted a role
/// check at all: `sub`, `exp` and `role` must all be there.
pub open spec fn checked_role_name(
    c: Option<(Option<Seq<char>>, Option<u64>, Option<Seq<char>>)>,
) -> Option<Seq<char>> {
    match c {
        Some((Some(_), Some(_), Some(n))) => Some(n),
        _ => None,
    }
}

/// What a role check answers for the claims of an accepted token (`Ok(c)`),
/// or for a token that was not accepted: the claims must hold a string `sub`,
/// an integer `exp` and a string `role`, and the role must be named exactly.
pub open spec fn role_check_outcome(
    claims: Result<(Option<Seq<char>>, Option<u64>, Option<Seq<char>>), ()>,
    r: Result<UserRole, &str>,
) -> bool {
    match claims {
        Ok((Some(_), Some(_), Some(name))) => match role_of_name(name) {
            Some(role) => r == Ok::<UserRole, &str>(role),
            None => r matches Err(e) && e@ == "Invalid role"@,
        },
        _ => r matches Err(e) && e@ == "Error in decoding token"@,
    }
}

/// The role check's answer for the claims read from a token.
pub fn role_from_claim(claims: &Result<ClaimFields, TokenError>) -> (r: Result<
    UserRole,
    &'static str,
>)
    ensures
        role_check_outcome(
            match claims {
                Ok(c) => Ok(claim_fields_view(*c)),
                Err(_) => Err(()),
            },
            r,
        ),
{
    match claims {
        Ok(c) => match (&c.sub, &c.exp, &c.role) {
            (Some(_), Some(_), Some(name)) => match parse_role(name.as_str()) {
                Some(role) => Ok(role),
                None => Err("Invalid role"),
            },
            _ => Err("Error in decoding token"),
        },
        Err(_) => Err("Error in decoding token"),
    }
}

/// The key that role checks verify tokens with.
pub open spec fn role_check_key() -> Seq<char> {
    "JWT_SECRET_KEY"@
}

/// `r` is the role check's error for a token that was not accepted.
pub open spec fn is_decoding_error<T>(r: Result<T, &str>) -> bool {
    r matches Err(e) && e@ == "Error in decoding token"@
}

/// The role check's answer `r` for a token whose claims under the key are `c`
/// (as `jwt_hs256_claims` names them): a token that is not signed under the
/// key, or lacks a string `sub`, an integer `exp` or a string `role`, gets the
/// decoding error; a granted role is exactly the one the token names; a role
/// name other than `Admin` or `User` is never granted. A signed token may
/// still get the decoding error once it has expired.
pub open spec fn role_check_result(
    c: Option<(Option<Seq<char>>, Option<u64>, Option<Seq<char>>)>,
    r: Result<UserRole, &str>,
) -> bool {
    &&& checked_role_name(c) is None ==> is_decoding_error(r)
    &&& r matches Ok(role) ==> checked_role_name(c) == Some(role_name(role))
    &&& r matches Err(e) ==> is_decoding_error(r) || (e@ == "Invalid role"@ && (checked_role_name(
        c,
    ) matches Some(n) && role_of_name(n) is None))
    &&& (checked_role_name(c) matches Some(n) && role_of_name(n) is None) ==> r is Err
}

proof fn lemma_role_of_name_is_role_name(n: Seq<char>)
    ensures
        role_of_name(n) matches Some(role) ==> n == role_name(role),
{
}

/// Verifies `token` with the fixed key `"JWT_SECRET_KEY"` and reads the user's
/// role from its `role` claim.
pub fn check_user_role(token: &str) -> (r: Result<UserRole, &'static str>)
    ensures
        role_check_result(jwt_hs256_claims(token@, role_check_key()), r),
        !token@.contains('.') ==> is_decoding_error(r),
{
    let decoded = decode_claims(token, "JWT_SECRET_KEY");
    let claims = match decoded {
        Ok(c) => Ok(c),
        Err(_) => Err(TokenError),
    };
    let r = role_from_claim(&claims);
    proof {
        if let Ok(c) = claims {
            if let Some(n) = c.role {
                lemma_role_of_name_is_role_name(n@);
            }
        }
    }
    r
}

/// The token a session holds, as text: empty where there is none.
pub open spec fn session_token_view(stored: Option<String>) -> Seq<char> {
    match stored {
        Some(s) => s@,
        None => Seq::empty(),
    }
}

/// The token kept in the session, or the empty text where there is none.
pub fn get_sesion_token(stored: Option<String>) -> (t: String)
    ensures
        stored matches Some(s) ==> t@ == s@,
        stored is None ==> t@.len() == 0,
        t@ == session_token_view(stored),
{
    match stored {
        Some(t) => t,
        None => String::new(),
    }
}

} // verus!
