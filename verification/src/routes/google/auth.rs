use vstd::prelude::*;

use crate::utilities::text::owned;

verus! {

/// The temporary code that Google handed to the front end.
#[derive(Debug, PartialEq)]
pub struct GoogleTokenRequest {
    pub temp_code: String,
}

/// The form that exchanges a temporary code for a Google access token.
#[derive(Debug, PartialEq)]
pub struct TokenRequest {
    pub code: String,
    pub client_id: String,
    pub client_secret: String,
    pub redirect_uri: String,
    pub grant_type: String,
}

/// The address of Google's token endpoint.
pub fn google_token_url() -> (r: &'static str)
    ensures
        r@ == "https://oauth2.googleapis.com/token"@,
{
    "https://oauth2.googleapis.com/token"
}

/// The form that exchanges `temp_code` for an access token of the application
/// `client_id`: an authorization-code grant that redirects to the front end.
pub fn google_token_request(temp_code: &str, client_id: String, client_secret: String) -> (r: TokenRequest)
    ensures
        r.code@ == temp_code@,
        r.client_id == client_id,
        r.client_secret == client_secret,
        r.redirect_uri@ == "http://localhost:5173/google-access-redirect"@,
        r.grant_type@ == "authorization_code"@,
{
    TokenRequest {
        grant_type: owned("authorization_code"),
        code: owned(temp_code),
        client_id,
        client_secret,
        redirect_uri: owned("http://localhost:5173/google-access-redirect"),
    }
}

} // verus!
