//! The tokens the authentication service issues and checks.

use vstd::prelude::*;
use jsonwebtoken::{decode, DecodingKey, Validation};
use serde_json::Value;
use crate::auth_error::UserCustomResponseError;
use crate::auth_schema::{parse_role, role_name, Role, TokenPayload};
use crate::text::{bearer_prefix, lemma_remove_all_spaceless, lemma_strip_bearer_token, remove_all, strip_bearer};

verus! {

/// The token `jsonwebtoken::encode` gives for the claims `{"id": id, "role": role}`
/// under the default header (HS256) and the HMAC secret `secret`.
pub uninterp spec fn issued_token(id: Seq<char>, role: Seq<char>, secret: Seq<char>) -> Seq<char>;

/// The shape of a `role` claim, as far as reading a role from it needs: text,
/// an object (each key, and whether its value is `null`), or anything else.
pub enum RoleForm {
    Text(Seq<char>),
    Object(Seq<(Seq<char>, bool)>),
    Other,
}

/// A `role` claim as read from a token.
pub enum RoleClaim {
    Text(String),
    Object(Vec<(String, bool)>),
    Other,
}

impl View for RoleClaim {
    type V = RoleForm;

    open spec fn view(&self) -> RoleForm {
        match self {
            RoleClaim::Text(s) => RoleForm::Text(s@),
            RoleClaim::Object(entries) => RoleForm::Object(entries@.map_values(|e: (String, bool)| (e.0@, e.1))),
            RoleClaim::Other => RoleForm::Other,
        }
    }
}

/// The role a `role` claim names, read as a serde-derived enum of unit
/// variants reads it from JSON: the variant's name as text, or an object with
/// exactly one key, the variant's name, whose value is `null`.
pub open spec fn parse_role_claim(form: RoleForm) -> Result<Role, ()> {
    match form {
        RoleForm::Text(s) => parse_role(s),
        RoleForm::Object(entries) => if entries.len() == 1 && entries[0].1 {
            parse_role(entries[0].0)
        } else {
            Err(())
        },
        RoleForm::Other => Err(()),
    }
}

/// The `id` claim, as text, and the `role` claim that `jsonwebtoken::decode`
/// reads from `token` under the HMAC secret `secret`, with no claim required and
/// neither the expiry nor the audience checked; `None` where decoding fails, the
/// `id` claim is missing or not text, or the `role` claim is missing.
pub uninterp spec fn decoded_claims(token: Seq<char>, secret: Seq<char>) -> Option<(Seq<char>, RoleForm)>;

/// `jsonwebtoken::encode` over the claims `{"id": id, "role": role}`, default
/// header, HMAC key `secret`. The source cannot fail here: the key family is HMAC
/// as HS256 asks, a map of texts always serializes, and HMAC signing never fails.
/// The token is three base64url parts joined by dots, so it holds no space; and
/// `decode` with the same secret verifies its signature and gives the claims back.
#[verifier::external_body]
fn jwt_encode(id: &str, role: &str, secret: &str) -> (res: String)
    ensures
        res@ == issued_token(id@, role@, secret@),
        decoded_claims(res@, secret@) == Some((id@, RoleForm::Text(role@))),
        forall|i: int| 0 <= i < res@.len() ==> res@[i] != ' ',
{
    let mut claims = serde_json::Map::new();
    claims.insert("id".to_string(), serde_json::Value::String(id.to_string()));
    claims.insert("role".to_string(), serde_json::Value::String(role.to_string()));
    let key = jsonwebtoken::EncodingKey::from_secret(secret.as_bytes());
    jsonwebtoken::encode(&jsonwebtoken::Header::default(), &claims, &key).unwrap()
}

/// `jsonwebtoken::decode` of `token` under the HMAC key `secret`, HS256, expiry
/// and audience not checked and no claim required, then the `id` claim as text
/// and the `role` claim by its shape.
#[verifier::external_body]
fn jwt_decode(token: &str, secret: &str) -> (res: Option<(String, RoleClaim)>)
    ensures
        match res {
            Some((id, role)) => decoded_claims(token@, secret@) == Some((id@, role@)),
            None => decoded_claims(token@, secret@) is None,
        },
{
    let mut validation = Validation::default();
    (validation.validate_exp, validation.validate_aud) = (false, false);
    validation.required_spec_claims.clear();
    let key = DecodingKey::from_secret(secret.as_bytes());
    let claims = decode::<Value>(token, &key, &validation).ok()?.claims;
    let id = claims.get("id")?.as_str()?.to_string();
    let role = match claims.get("role")? {
        Value::String(text) => RoleClaim::Text(text.clone()),
        Value::Object(map) => RoleClaim::Object(map.iter().map(|(k, v)| (k.clone(), v.is_null())).collect()),
        _ => RoleClaim::Other,
    };
    Some((id, role))
}

/// The role a `role` claim names.
fn role_from_claim(claim: &RoleClaim) -> (res: Result<Role, ()>)
    ensures
        res == parse_role_claim(claim@),
{
    match claim {
        RoleClaim::Text(text) => Role::from_str(text.as_str()),
        RoleClaim::Object(entries) => {
            if entries.len() == 1 && entries[0].1 {
                assert(claim@ == RoleForm::Object(entries@.map_values(|e: (String, bool)| (e.0@, e.1))));
                Role::from_str(entries[0].0.as_str())
            } else {
                Err(())
            }
        },
        RoleClaim::Other => Err(()),
    }
}

/// The secret the service signs its tokens with.
pub open spec fn token_secret() -> Seq<char> {
    "secret"@
}

/// The identity an `Authorization` header proves: its token, with every
/// `"Bearer "` removed, must decode under the service's secret to an `id` and
/// a `role` claim that names a role.
pub open spec fn header_identity(header: Option<Seq<char>>) -> Result<(Seq<char>, Role), UserCustomResponseError> {
    match header {
        None => Err(UserCustomResponseError::BadHeaderData),
        Some(h) => match decoded_claims(remove_all(h, bearer_prefix()), token_secret()) {
            None => Err(UserCustomResponseError::BadHeaderData),
            Some(claims) => match parse_role_claim(claims.1) {
                Ok(role) => Ok((claims.0, role)),
                Err(_) => Err(UserCustomResponseError::BadHeaderData),
            },
        },
    }
}

/// The text of an optional header, as a spec value.
pub open spec fn header_text(header: Option<&str>) -> Option<Seq<char>> {
    match header {
        Some(h) => Some(h@),
        None => None,
    }
}

/// Checks the `Authorization` header of a request (`None` where the request has
/// none, or one that is not visible ASCII text) and gives what its token carries.
pub fn authenticate(header: Option<&str>) -> (res: Result<TokenPayload, UserCustomResponseError>)
    ensures
        match res {
            Ok(p) => header_identity(header_text(header)) == Ok::<(Seq<char>, Role), UserCustomResponseError>((p.id@, p.role)),
            Err(e) => header_identity(header_text(header)) == Err::<(Seq<char>, Role), UserCustomResponseError>(e),
        },
{
    match header {
        None => Err(UserCustomResponseError::BadHeaderData),
        Some(h) => {
            let token = strip_bearer(h);
            match jwt_decode(token.as_str(), "secret") {
                None => Err(UserCustomResponseError::BadHeaderData),
                Some((id, role_claim)) => match role_from_claim(&role_claim) {
                    Ok(role) => Ok(TokenPayload { id, role }),
                    Err(_) => Err(UserCustomResponseError::BadHeaderData),
                },
            }
        },
    }
}

/// A token for the user `id` with the role `role`. Sent back in an
/// `Authorization` header, after `"Bearer "` or alone, it proves that same identity.
pub fn issue_token(id: &str, role: Role) -> (res: String)
    ensures
        res@ == issued_token(id@, role_name(role), token_secret()),
        header_identity(Some(bearer_prefix() + res@)) == Ok::<(Seq<char>, Role), UserCustomResponseError>((id@, role)),
        header_identity(Some(res@)) == Ok::<(Seq<char>, Role), UserCustomResponseError>((id@, role)),
{
    let res = jwt_encode(id, role.name(), "secret");
    proof {
        lemma_remove_all_spaceless(res@);
        lemma_strip_bearer_token(res@);
        crate::auth_schema::lemma_role_name_roundtrip(role);
    }
    res
}

} // verus!
