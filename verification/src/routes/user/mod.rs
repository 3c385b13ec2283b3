pub mod integrations;

use vstd::prelude::*;

use crate::models::user::AccountType;
use crate::utilities::errors::UserError;
use crate::utilities::numbers::{i64_text, int_text};
use crate::utilities::text::{owned, remove_pattern, without_pattern};
use crate::utilities::time::{CalendarDate, Timestamp};

verus! {

/// The form of a new account.
#[derive(Debug, PartialEq)]
pub struct SignUpForm {
    pub email: String,
    pub oauth_provider_id: Option<String>,
    pub oauth_access_token: Option<String>,
    pub password: Option<String>,
    pub account_type: usize,
}

/// The credentials of a login.
#[derive(Debug, PartialEq)]
pub struct LoginRequest {
    pub email: String,
    pub password: Option<String>,
    pub oauth_provider_id: Option<String>,
    pub oauth_access_token: Option<String>,
    pub account_type: usize,
}

/// The changes to an account; a field left out keeps its value.
#[derive(Debug, PartialEq)]
pub struct UpdateUser {
    pub first_name: Option<String>,
    pub last_name: Option<String>,
    pub email: Option<String>,
    pub password: Option<String>,
    pub oauth_provider_id: Option<String>,
    pub oauth_access_token: Option<String>,
    pub date_of_birth: Option<CalendarDate>,
    pub phone_number: Option<String>,
    pub city: Option<String>,
    pub country: Option<String>,
    pub account_type: Option<usize>,
}

/// The claims of a session token: the user's id and the expiry (Unix seconds).
#[derive(Debug, PartialEq)]
pub struct Claims {
    pub sub: String,
    pub exp: usize,
}

/// The reply to a successful sign-up or login.
#[derive(Debug, PartialEq)]
pub struct TokenResponse {
    pub user_id: String,
    pub token: String,
}

/// Whether `s` is an e-mail address that the validator crate accepts.
pub uninterp spec fn valid_email(s: Seq<char>) -> bool;

/// Asks the validator crate (`validator::validate_email`) whether `s` is an e-mail address.
#[verifier::external_body]
pub(crate) fn email_is_valid(s: &str) -> (r: bool)
    ensures
        r == valid_email(s@),
{
    validator::validate_email(s)
}

/// Whether an optional text, when present, has at least eight characters.
pub open spec fn long_enough(s: Option<String>) -> bool {
    match s {
        Some(t) => t@.len() >= 8,
        None => true,
    }
}

fn is_long_enough(s: &Option<String>) -> (r: bool)
    ensures
        r == long_enough(*s),
{
    match s {
        Some(t) => t.unicode_len() >= 8,
        None => true,
    }
}

/// `name` when `ok` fails, nothing otherwise.
pub open spec fn failing(ok: bool, name: Seq<char>) -> Seq<Seq<char>> {
    if ok { Seq::empty() } else { seq![name] }
}

/// The fields of a sign-up form that break its rules, in order: the e-mail must be an
/// address, and each given identifier, token or password must have eight characters.
pub open spec fn signup_invalid_fields(f: SignUpForm) -> Seq<Seq<char>> {
    failing(valid_email(f.email@), "email"@)
        + failing(long_enough(f.oauth_provider_id), "oauth_provider_id"@)
        + failing(long_enough(f.oauth_access_token), "oauth_access_token"@)
        + failing(long_enough(f.password), "password"@)
}

/// The fields of a login request that break its rules, in order.
pub open spec fn login_invalid_fields(r: LoginRequest) -> Seq<Seq<char>> {
    failing(valid_email(r.email@), "email"@)
        + failing(long_enough(r.password), "password"@)
        + failing(long_enough(r.oauth_provider_id), "oauth_provider_id"@)
        + failing(long_enough(r.oauth_access_token), "oauth_access_token"@)
}

fn push_failing(fields: &mut Vec<&'static str>, ok: bool, name: &'static str)
    ensures
        final(fields)@.map_values(|s: &str| s@) == old(fields)@.map_values(|s: &str| s@)
            + failing(ok, name@),
{
    let ghost before = fields@;
    if !ok {
        fields.push(name);
        assert(fields@.map_values(|s: &str| s@) =~= before.map_values(|s: &str| s@) + seq![name@]);
    } else {
        assert(fields@.map_values(|s: &str| s@) =~= before.map_values(|s: &str| s@) + Seq::empty());
    }
}

impl SignUpForm {
    /// Checks the form's rules; on failure names the fields that break them, in order.
    pub fn validate(&self) -> (r: Result<(), Vec<&'static str>>)
        ensures
            match r {
                Ok(_) => signup_invalid_fields(*self).len() == 0,
                Err(fields) => fields@.len() > 0 && fields@.map_values(|s: &str| s@)
                    == signup_invalid_fields(*self),
            },
    {
        let mut fields: Vec<&'static str> = Vec::new();
        assert(fields@.map_values(|s: &str| s@) =~= Seq::<Seq<char>>::empty());
        push_failing(&mut fields, email_is_valid(self.email.as_str()), "email");
        push_failing(&mut fields, is_long_enough(&self.oauth_provider_id), "oauth_provider_id");
        push_failing(&mut fields, is_long_enough(&self.oauth_access_token), "oauth_access_token");
        push_failing(&mut fields, is_long_enough(&self.password), "password");
        assert(fields@.map_values(|s: &str| s@) =~= signup_invalid_fields(*self));
        if fields.len() == 0 {
            Ok(())
        } else {
            Err(fields)
        }
    }
}

impl LoginRequest {
    /// Checks the request's rules; on failure names the fields that break them, in order.
    pub fn validate(&self) -> (r: Result<(), Vec<&'static str>>)
        ensures
            match r {
                Ok(_) => login_invalid_fields(*self).len() == 0,
                Err(fields) => fields@.len() > 0 && fields@.map_values(|s: &str| s@)
                    == login_invalid_fields(*self),
            },
    {
        let mut fields: Vec<&'static str> = Vec::new();
        assert(fields@.map_values(|s: &str| s@) =~= Seq::<Seq<char>>::empty());
        push_failing(&mut fields, email_is_valid(self.email.as_str()), "email");
        push_failing(&mut fields, is_long_enough(&self.password), "password");
        push_failing(&mut fields, is_long_enough(&self.oauth_provider_id), "oauth_provider_id");
        push_failing(&mut fields, is_long_enough(&self.oauth_access_token), "oauth_access_token");
        assert(fields@.map_values(|s: &str| s@) =~= login_invalid_fields(*self));
        if fields.len() == 0 {
            Ok(())
        } else {
            Err(fields)
        }
    }
}

/// What `bcrypt::verify` answers for `password` against the stored `hash`: whether they
/// match, or `None` when the hash cannot be read.
pub uninterp spec fn bcrypt_verification(password: Seq<char>, hash: Seq<char>) -> Option<bool>;

/// Checks `password` against the stored `hash` with `bcrypt::verify`.
#[verifier::external_body]
pub(crate) fn bcrypt_verify(password: &str, hash: &str) -> (r: Option<bool>)
    ensures
        r == bcrypt_verification(password@, hash@),
{
    bcrypt::verify(password, hash).ok()
}

/// Hashes `password` with `bcrypt::hash` at the default cost, with a fresh random salt.
/// The hash is `$2b$12$` followed by the salt and the digest (sixty characters in all),
/// and `bcrypt::verify` accepts `password` against it; the salt itself is random. `None`
/// when the system gives no randomness.
#[verifier::external_body]
pub(crate) fn bcrypt_hash(password: &str) -> (r: Option<String>)
    ensures
        r matches Some(h) ==> {
            &&& h@.len() == 60
            &&& h@.take(7) == "$2b$12$"@
            &&& bcrypt_verification(password@, h@) == Some(true)
        },
{
    bcrypt::hash(password, bcrypt::DEFAULT_COST).ok()
}

/// How a login with credentials that passed validation is answered.
#[derive(Debug, Clone, Copy, PartialEq, Eq, Structural)]
pub enum LoginVerdict {
    /// The password is accepted: refresh the user's search key, then hand out a token.
    RefreshKeyAndAccept,
    /// The OAuth identity is accepted: hand out a token.
    Accept,
    /// Refused with "Invalid password or oauth access token".
    Reject,
}

/// The verdict on a login: a given password is accepted when bcrypt can check it against
/// the stored hash (whether or not it matches); without a password, a login that gives
/// both an OAuth provider id and an OAuth token is accepted; anything else is refused.
pub open spec fn login_verdict_of(
    password: Option<Seq<char>>,
    stored_hash: Option<Seq<char>>,
    has_oauth_id: bool,
    has_oauth_token: bool,
) -> LoginVerdict {
    match password {
        Some(p) => if bcrypt_verification(p, stored_hash->0) is Some {
            LoginVerdict::RefreshKeyAndAccept
        } else {
            LoginVerdict::Reject
        },
        None => if has_oauth_id && has_oauth_token {
            LoginVerdict::Accept
        } else {
            LoginVerdict::Reject
        },
    }
}

/// The text of an optional string.
pub open spec fn opt_view(s: Option<String>) -> Option<Seq<char>> {
    match s {
        Some(t) => Some(t@),
        None => None,
    }
}

/// The verdict on the login `req` of a user whose stored password hash is `password_hash`.
pub fn login_verdict(req: &LoginRequest, password_hash: Option<&str>) -> (v: LoginVerdict)
    requires
        req.password is Some ==> password_hash is Some,
    ensures
        v == login_verdict_of(
            opt_view(req.password),
            match password_hash { Some(h) => Some(h@), None => None },
            req.oauth_provider_id is Some,
            req.oauth_access_token is Some,
        ),
{
    match &req.password {
        Some(p) => {
            let hash = password_hash.unwrap();
            if bcrypt_verify(p.as_str(), hash).is_some() {
                LoginVerdict::RefreshKeyAndAccept
            } else {
                LoginVerdict::Reject
            }
        },
        None => {
            if req.oauth_provider_id.is_some() && req.oauth_access_token.is_some() {
                LoginVerdict::Accept
            } else {
                LoginVerdict::Reject
            }
        },
    }
}

/// Law: a password whose hash was made at sign-up (so that bcrypt accepts it against
/// that hash) is accepted at login.
pub proof fn lemma_signup_password_accepted(password: Seq<char>, stored_hash: Seq<char>, has_oauth_id: bool, has_oauth_token: bool)
    requires
        bcrypt_verification(password, stored_hash) == Some(true),
    ensures
        login_verdict_of(Some(password), Some(stored_hash), has_oauth_id, has_oauth_token)
            == LoginVerdict::RefreshKeyAndAccept,
{
}

/// The account to be stored for a new user.
#[derive(Debug, PartialEq)]
pub struct NewUser {
    pub first_name: String,
    pub last_name: String,
    pub email: String,
    pub password_hash: Option<String>,
    pub oauth_provider_id: Option<String>,
    pub oauth_access_token: Option<String>,
    pub date_of_birth: Option<Timestamp>,
    pub phone_number: Option<String>,
    pub city: Option<String>,
    pub country: Option<String>,
    pub account_type: AccountType,
}

/// Why a sign-up is not stored.
#[derive(Debug, PartialEq)]
pub enum SignupRefusal {
    /// The form lacks what its account type needs.
    Refused(UserError),
    /// The password could not be hashed (the system gave no randomness).
    HashUnavailable,
}

/// The account to store for a validated sign-up form: a credentials account keeps the
/// bcrypt hash of its password at the default cost (`$2b$12$`), an OAuth account its
/// provider id and token; names, birth date, phone, city and country start empty.
pub fn prepare_signup(form: SignUpForm) -> (r: Result<NewUser, SignupRefusal>)
    requires
        form.account_type < 2,
    ensures
        form.account_type == 0 ==> match r {
            Ok(u) => form.password matches Some(p) && u.password_hash matches Some(h)
                && bcrypt_verification(p@, h@) == Some(true) && h@.len() == 60
                && h@.take(7) == "$2b$12$"@ && u.oauth_provider_id is None && u.oauth_access_token is None
                && u.account_type == AccountType::Credentials,
            Err(SignupRefusal::Refused(e)) => form.password is None && e
                == UserError::BadRequest(e->BadRequest_0) && e->BadRequest_0@
                == "No password provided for Credentials login"@,
            Err(SignupRefusal::HashUnavailable) => form.password is Some,
        },
        form.account_type == 1 ==> match r {
            Ok(u) => u.oauth_provider_id == form.oauth_provider_id && u.oauth_access_token
                == form.oauth_access_token && form.oauth_provider_id is Some
                && form.oauth_access_token is Some && u.password_hash is None
                && u.account_type == AccountType::Google,
            Err(SignupRefusal::Refused(e)) => (form.oauth_provider_id is None
                || form.oauth_access_token is None) && e == UserError::BadRequest(
                e->BadRequest_0) && e->BadRequest_0@ == "Missing OAuth information for OAuth login"@,
            Err(SignupRefusal::HashUnavailable) => false,
        },
        r matches Ok(u) ==> {
            &&& u.email == form.email
            &&& u.first_name@ == Seq::<char>::empty()
            &&& u.last_name@ == Seq::<char>::empty()
            &&& u.date_of_birth is None
            &&& u.phone_number is None
            &&& u.city is None
            &&& u.country is None
        },
{
    let account_type = AccountType::from(form.account_type);
    let password_hash: Option<String>;
    let oauth_provider_id: Option<String>;
    let oauth_access_token: Option<String>;
    match account_type {
        AccountType::Credentials => {
            if let Some(password) = form.password {
                match bcrypt_hash(password.as_str()) {
                    Some(h) => {
                        password_hash = Some(h);
                    },
                    None => {
                        return Err(SignupRefusal::HashUnavailable);
                    },
                }
                oauth_provider_id = None;
                oauth_access_token = None;
            } else {
                return Err(SignupRefusal::Refused(UserError::BadRequest(
                    owned("No password provided for Credentials login"),
                )));
            }
        },
        AccountType::Google => {
            if form.oauth_provider_id.is_some() && form.oauth_access_token.is_some() {
                oauth_provider_id = form.oauth_provider_id;
                oauth_access_token = form.oauth_access_token;
                password_hash = None;
            } else {
                return Err(SignupRefusal::Refused(UserError::BadRequest(
                    owned("Missing OAuth information for OAuth login"),
                )));
            }
        },
    }
    Ok(NewUser {
        first_name: String::new(),
        last_name: String::new(),
        email: form.email,
        password_hash,
        oauth_provider_id,
        oauth_access_token,
        date_of_birth: None,
        phone_number: None,
        city: None,
        country: None,
        account_type,
    })
}

/// The changes to store for an account update: the password is stored as its bcrypt hash
/// and the account type by its index; every other field is passed on as given.
#[derive(Debug, PartialEq)]
pub struct UserUpdate {
    pub first_name: Option<String>,
    pub last_name: Option<String>,
    pub email: Option<String>,
    pub password_hash: Option<String>,
    pub oauth_provider_id: Option<String>,
    pub oauth_access_token: Option<String>,
    pub date_of_birth: Option<CalendarDate>,
    pub phone_number: Option<String>,
    pub city: Option<String>,
    pub country: Option<String>,
    pub account_type: Option<AccountType>,
}

/// The changes to store for the update `payload`, a new password as its bcrypt hash at the
/// default cost; `None` when a new password could not be hashed (the system gave no randomness).
pub fn prepare_user_update(payload: UpdateUser) -> (r: Option<UserUpdate>)
    requires
        payload.account_type matches Some(i) ==> i < 2,
    ensures
        match r {
            Some(u) => {
                &&& u.first_name == payload.first_name
                &&& u.last_name == payload.last_name
                &&& u.email == payload.email
                &&& u.oauth_provider_id == payload.oauth_provider_id
                &&& u.oauth_access_token == payload.oauth_access_token
                &&& u.date_of_birth == payload.date_of_birth
                &&& u.phone_number == payload.phone_number
                &&& u.city == payload.city
                &&& u.country == payload.country
                &&& u.account_type == match payload.account_type {
                    Some(i) => Some(if i == 0 { AccountType::Credentials } else { AccountType::Google }),
                    None => None,
                }
                &&& match payload.password {
                    Some(p) => u.password_hash matches Some(h) && bcrypt_verification(p@, h@)
                        == Some(true) && h@.len() == 60 && h@.take(7) == "$2b$12$"@,
                    None => u.password_hash is None,
                }
            },
            None => payload.password is Some,
        },
{
    let account_type = match payload.account_type {
        Some(i) => Some(AccountType::from(i)),
        None => None,
    };
    let password_hash = match &payload.password {
        Some(p) => match bcrypt_hash(p.as_str()) {
            Some(h) => Some(h),
            None => {
                return None;
            },
        },
        None => None,
    };
    Some(UserUpdate {
        first_name: payload.first_name,
        last_name: payload.last_name,
        email: payload.email,
        password_hash,
        oauth_provider_id: payload.oauth_provider_id,
        oauth_access_token: payload.oauth_access_token,
        date_of_birth: payload.date_of_birth,
        phone_number: payload.phone_number,
        city: payload.city,
        country: payload.country,
        account_type,
    })
}

/// The number of seconds a session token stays valid (seven days).
pub open spec fn token_lifetime() -> int {
    604800
}

/// The claims of a new session token for `user_id` at the Unix time `now`: it expires
/// seven days later (the expiry converted to `usize` by truncation).
pub fn token_claims(user_id: &str, now: i64) -> (c: Claims)
    requires
        now <= i64::MAX - 604800,
    ensures
        c.sub@ == user_id@,
        c.exp == ((now + token_lifetime()) as i64) as usize,
{
    let expiry: i64 = now + 604800;
    Claims { sub: owned(user_id), exp: #[verifier::truncate] (expiry as usize) }
}

/// The expiry of a session token made at the Unix time `now`.
pub open spec fn token_expiry(now: int) -> usize {
    ((now + token_lifetime()) as i64) as usize
}

/// What `jsonwebtoken::decode` reads from `token` signed with HMAC-SHA256 under `secret`:
/// the `sub` text and `exp` number of its claims, with the signature, the algorithm and
/// the presence of `exp` checked but not the expiry itself; `None` when decoding fails or
/// a claim is missing or of another type.
pub uninterp spec fn hs256_claims(token: Seq<char>, secret: Seq<char>) -> Option<(Seq<char>, usize)>;

/// Signs `claims` (written as the JSON object of `sub` and `exp`) with HMAC-SHA256 under
/// `secret`, with `jsonwebtoken::encode`. Encoding a map of a text and a number under a
/// secret key cannot fail, and decoding the token under the same secret gives the claims
/// back.
#[verifier::external_body]
fn hs256_encode(claims: &Claims, secret: &str) -> (r: Option<String>)
    ensures
        r is Some,
        r matches Some(t) ==> hs256_claims(t@, secret@) == Some((claims.sub@, claims.exp)),
{
    let mut payload = serde_json::Map::new();
    payload.insert("sub".to_string(), serde_json::Value::from(claims.sub.clone()));
    payload.insert("exp".to_string(), serde_json::Value::from(claims.exp));
    let header = jsonwebtoken::Header::new(jsonwebtoken::Algorithm::HS256);
    let key = jsonwebtoken::EncodingKey::from_secret(secret.as_bytes());
    jsonwebtoken::encode(&header, &payload, &key).ok()
}

/// Decodes `token` with `jsonwebtoken::decode` (HMAC-SHA256 under `secret`, the expiry
/// left unchecked) and reads its `sub` and `exp` claims.
#[verifier::external_body]
fn hs256_decode(token: &str, secret: &str) -> (r: Option<Claims>)
    ensures
        match r {
            Some(c) => hs256_claims(token@, secret@) == Some((c.sub@, c.exp)),
            None => hs256_claims(token@, secret@) is None,
        },
{
    let mut validation = jsonwebtoken::Validation::new(jsonwebtoken::Algorithm::HS256);
    validation.validate_exp = false;
    let key = jsonwebtoken::DecodingKey::from_secret(secret.as_bytes());
    let data = jsonwebtoken::decode::<serde_json::Map<String, serde_json::Value>>(token, &key,
        &validation).ok()?;
    let sub = data.claims.get("sub")?.as_str()?.to_string();
    let exp = usize::try_from(data.claims.get("exp")?.as_u64()?).ok()?;
    Some(Claims { sub, exp })
}

/// The session token for `user_id` at the Unix time `now`: its claims, signed under
/// `jwt_secret`, name the user and expire seven days later.
pub fn generate_token(user_id: &str, jwt_secret: &str, now: i64) -> (r: String)
    requires
        now <= i64::MAX - 604800,
    ensures
        hs256_claims(r@, jwt_secret@) == Some((user_id@, token_expiry(now as int))),
{
    let claims = token_claims(user_id, now);
    hs256_encode(&claims, jwt_secret).unwrap()
}

/// What a session token is accepted as at the Unix time `now`: its claims, when it is
/// signed under `secret` and has not expired (`exp` at least `now`).
pub open spec fn accepted_claims(token: Seq<char>, secret: Seq<char>, now: int) -> Option<(Seq<char>, usize)> {
    match hs256_claims(token, secret) {
        Some((sub, exp)) => if exp >= now { Some((sub, exp)) } else { None },
        None => None,
    }
}

/// The claims of `token` when it is signed under `jwt_secret` and has not expired at the
/// Unix time `now`.
pub fn validate_token(token: &str, jwt_secret: &str, now: u64) -> (r: Option<Claims>)
    ensures
        match r {
            Some(c) => accepted_claims(token@, jwt_secret@, now as int) == Some((c.sub@, c.exp)),
            None => accepted_claims(token@, jwt_secret@, now as int) is None,
        },
{
    match hs256_decode(token, jwt_secret) {
        Some(c) => {
            if c.exp as u64 >= now {
                Some(c)
            } else {
                None
            }
        },
        None => None,
    }
}

/// Law: a token made for a user at a time `now` is accepted as that user's, with its
/// expiry, at every later time up to seven days after `now` (for times whose expiry
/// fits both `i64` and `usize`).
pub proof fn lemma_token_accepted_within_week(token: Seq<char>, secret: Seq<char>, user: Seq<char>, now: int, later: int)
    requires
        hs256_claims(token, secret) == Some((user, token_expiry(now))),
        0 <= now,
        now + token_lifetime() <= usize::MAX,
        now + token_lifetime() <= i64::MAX,
        now <= later <= now + token_lifetime(),
    ensures
        accepted_claims(token, secret, later) == Some((user, token_expiry(now))),
        token_expiry(now) == now + token_lifetime(),
{
    let e = now + token_lifetime();
    assert((e as i64) as int == e);
    assert(((e as i64) as usize) as int == e);
}

/// The token carried in an `Authorization` header: the header's text with every
/// occurrence of "Bearer " taken out.
pub fn bearer_token(header_value: &str) -> (r: String)
    ensures
        r@ == without_pattern(header_value@, "Bearer "@),
{
    remove_pattern(header_value, "Bearer ")
}

/// The reply that hands the session token `token` to the user `user_id`.
pub fn token_response(user_id: i64, token: String) -> (r: TokenResponse)
    ensures
        r.user_id@ == int_text(user_id as int),
        r.token == token,
{
    TokenResponse { user_id: i64_text(user_id), token }
}

} // verus!
