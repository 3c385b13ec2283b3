use ndex::models::integration::{AddIntegration, Platform};
use ndex::models::user::AccountType;
use ndex::routes::user::integrations::{prepare_integration, removal_key, user_id_from_subject};
use ndex::routes::user::{
    bearer_token, login_verdict, prepare_signup, prepare_user_update,
    token_claims, token_response, LoginRequest, LoginVerdict, SignUpForm, SignupRefusal,
    UpdateUser,
};
use ndex::utilities::email::{signup_confirmation_body, signup_confirmation_subject};
use ndex::utilities::errors::{DbError, UserError};

#[test]
fn platforms_by_index_and_name() {
    assert_eq!(Platform::from(0), Platform::File);
    assert_eq!(Platform::from(4), Platform::Slack);
    assert_eq!(Platform::from_str("NoTiOn"), Ok(Platform::Notion));
    assert_eq!(Platform::from_str("myspace"), Err("Invalid integration platform: myspace".to_string()));
}

#[test]
fn account_types_by_index_and_name() {
    assert_eq!(AccountType::from(0), AccountType::Credentials);
    assert_eq!(AccountType::from(1), AccountType::Google);
    assert_eq!(AccountType::from_str("Google"), Ok(AccountType::Google));
    assert_eq!(AccountType::from_str("other"), Err("Invalid account type: other".to_string()));
    assert_eq!(AccountType::Credentials.to_str(), "credentials");
    assert_eq!(AccountType::from_str(AccountType::Google.to_str()), Ok(AccountType::Google));
}

fn signup(email: &str, password: Option<&str>, oauth: Option<(&str, &str)>, account_type: usize) -> SignUpForm {
    SignUpForm {
        email: email.to_string(),
        oauth_provider_id: oauth.map(|o| o.0.to_string()),
        oauth_access_token: oauth.map(|o| o.1.to_string()),
        password: password.map(|p| p.to_string()),
        account_type,
    }
}

#[test]
fn signup_form_rules() {
    assert_eq!(signup("ann@example.com", Some("longpassword"), None, 0).validate(), Ok(()));
    assert_eq!(signup("not-an-email", Some("short"), None, 0).validate(), Err(vec!["email", "password"]));
    assert_eq!(signup("ann@example.com", None, Some(("id", "tok")), 1).validate(), Err(vec!["oauth_provider_id", "oauth_access_token"]));
}

#[test]
fn credentials_signup_stores_a_hash_that_logs_in() {
    let user = prepare_signup(signup("ann@example.com", Some("longpassword"), None, 0)).unwrap();
    let hash = user.password_hash.clone().unwrap();
    assert_eq!(hash.len(), 60);
    assert!(hash.starts_with("$2b$12$"));
    assert_eq!(bcrypt::verify("longpassword", &hash).ok(), Some(true));
    assert_eq!(bcrypt::verify("wrongpassword", &hash).ok(), Some(false));
    assert_eq!(user.account_type, AccountType::Credentials);
    assert_eq!(user.first_name, "");
    let login = LoginRequest {
        email: "ann@example.com".to_string(),
        password: Some("longpassword".to_string()),
        oauth_provider_id: None,
        oauth_access_token: None,
        account_type: 0,
    };
    assert_eq!(login.validate(), Ok(()));
    assert_eq!(login_verdict(&login, Some(&hash)), LoginVerdict::RefreshKeyAndAccept);
}

#[test]
fn signup_refusals() {
    assert_eq!(
        prepare_signup(signup("ann@example.com", None, None, 0)),
        Err(SignupRefusal::Refused(UserError::BadRequest("No password provided for Credentials login".to_string())))
    );
    assert_eq!(
        prepare_signup(signup("ann@example.com", None, None, 1)),
        Err(SignupRefusal::Refused(UserError::BadRequest("Missing OAuth information for OAuth login".to_string())))
    );
    let oauth = prepare_signup(signup("ann@example.com", None, Some(("provider-1", "token-12")), 1)).unwrap();
    assert_eq!(oauth.password_hash, None);
    assert_eq!(oauth.oauth_provider_id, Some("provider-1".to_string()));
}

#[test]
fn login_verdicts() {
    let oauth = LoginRequest {
        email: "ann@example.com".to_string(),
        password: None,
        oauth_provider_id: Some("provider-1".to_string()),
        oauth_access_token: Some("token-12".to_string()),
        account_type: 1,
    };
    assert_eq!(login_verdict(&oauth, None), LoginVerdict::Accept);
    let nothing = LoginRequest { oauth_access_token: None, ..oauth };
    assert_eq!(login_verdict(&nothing, None), LoginVerdict::Reject);
    let garbled = LoginRequest {
        email: "ann@example.com".to_string(),
        password: Some("longpassword".to_string()),
        oauth_provider_id: None,
        oauth_access_token: None,
        account_type: 0,
    };
    assert_eq!(login_verdict(&garbled, Some("not a hash")), LoginVerdict::Reject);
}

#[test]
fn user_update_hashes_password() {
    let u = prepare_user_update(UpdateUser {
        first_name: Some("Ann".to_string()),
        last_name: None,
        email: None,
        password: Some("newpassword".to_string()),
        oauth_provider_id: None,
        oauth_access_token: None,
        date_of_birth: None,
        phone_number: None,
        city: Some("Oslo".to_string()),
        country: None,
        account_type: Some(1),
    })
    .unwrap();
    assert_eq!(u.first_name, Some("Ann".to_string()));
    assert_eq!(u.city, Some("Oslo".to_string()));
    assert_eq!(u.account_type, Some(AccountType::Google));
    assert_eq!(bcrypt::verify("newpassword", u.password_hash.as_ref().unwrap()).ok(), Some(true));
    assert!(u.password_hash.as_ref().unwrap().starts_with("$2b$12$"));
}

#[test]
fn session_tokens() {
    let c = token_claims("17", 1_700_000_000);
    assert_eq!(c.sub, "17");
    assert_eq!(c.exp, 1_700_604_800);
    assert_eq!(bearer_token("Bearer abc.def"), "abc.def");
    assert_eq!(user_id_from_subject("17"), Some(17));
    assert_eq!(user_id_from_subject("x"), None);
    let r = token_response(-5, "t".to_string());
    assert_eq!(r.user_id, "-5");
    assert_eq!(r.token, "t");
}

#[test]
fn integrations_by_platform_index() {
    let payload = || AddIntegration {
        email: "ann@example.com".to_string(),
        oauth_provider_id: None,
        integration_platform: 2,
        access_token: "tok".to_string(),
        scopes: Some(vec!["mail".to_string()]),
        extra: None,
    };
    let rec = prepare_integration(9, payload());
    assert_eq!(rec.platform, Platform::Google);
    assert_eq!(rec.user_id, 9);
    assert_eq!(removal_key(9, payload()), (9, "ann@example.com".to_string(), Platform::Google));
}

#[test]
fn error_replies() {
    assert_eq!(DbError::UserNotFound.status_and_message(), (404, "User Not Found"));
    assert_eq!(DbError::BadRequest("bad".to_string()).status_and_message(), (400, "bad"));
    assert_eq!(DbError::InternalServerError("boom".to_string()).status_and_message(), (500, "boom"));
    assert_eq!(UserError::Unauthorized("no".to_string()).status_and_message(), (401, "no"));
    assert_eq!(DbError::from_store_message("m".to_string()), DbError::BadRequest("m".to_string()));
}

#[test]
fn confirmation_email() {
    let body = signup_confirmation_body("https://x/confirm");
    assert!(body.contains("<p> https://x/confirm </p>"));
    assert!(body.starts_with("\n            <div>\n"));
    assert_eq!(signup_confirmation_subject(), "Email confirmation - Ndex");
}

#[test]
fn session_token_round_trip() {
    let now: i64 = 1_700_000_000;
    let token = ndex::routes::user::generate_token("17", "s3cret", now);
    assert_eq!(token.split('.').count(), 3);
    let expiry = (now + 604800) as u64;
    let claims = ndex::routes::user::validate_token(&token, "s3cret", now as u64).unwrap();
    assert_eq!(claims.sub, "17");
    assert_eq!(claims.exp as u64, expiry);
    assert!(ndex::routes::user::validate_token(&token, "s3cret", expiry).is_some());
    assert!(ndex::routes::user::validate_token(&token, "s3cret", expiry + 1).is_none());
    assert!(ndex::routes::user::validate_token(&token, "other", now as u64).is_none());
    assert!(ndex::routes::user::validate_token("not.a.token", "s3cret", now as u64).is_none());
}
