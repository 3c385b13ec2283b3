use vstd::prelude::*;

use crate::utilities::text::{joined, owned};
use oauth2::basic::BasicClient;
use oauth2::{AuthUrl, ClientId, ClientSecret, CsrfToken, PkceCodeChallenge, RedirectUrl, Scope};

verus! {

/// The query of Google's redirect after a user granted access.
#[derive(Debug, PartialEq)]
pub struct GoogleAuth {
    pub state: String,
    pub code: String,
    pub scope: String,
    pub authuser: String,
    pub prompt: String,
}

/// The endpoints and scopes of the Google OAuth flow.
#[derive(Debug, PartialEq)]
pub struct GoogleOAuthSettings {
    pub auth_url: String,
    pub token_url: String,
    pub redirect_url: String,
    pub revocation_url: String,
    pub scopes: Vec<String>,
}

/// The endpoints of Google's OAuth flow, the address Google sends the user back to, and
/// the scopes asked for (calendar, then profile).
pub fn google_oauth_settings() -> (r: GoogleOAuthSettings)
    ensures
        r.auth_url@ == "https://accounts.google.com/o/oauth2/v2/auth"@,
        r.token_url@ == "https://www.googleapis.com/oauth2/v3/token"@,
        r.redirect_url@ == "http://localhost:3001/google/auth/response"@,
        r.revocation_url@ == "https://oauth2.googleapis.com/revoke"@,
        r.scopes@.len() == 2,
        r.scopes@[0]@ == "https://www.googleapis.com/auth/calendar"@,
        r.scopes@[1]@ == "https://www.googleapis.com/auth/plus.me"@,
{
    let mut scopes: Vec<String> = Vec::new();
    scopes.push(owned("https://www.googleapis.com/auth/calendar"));
    scopes.push(owned("https://www.googleapis.com/auth/plus.me"));
    GoogleOAuthSettings {
        auth_url: owned("https://accounts.google.com/o/oauth2/v2/auth"),
        token_url: owned("https://www.googleapis.com/oauth2/v3/token"),
        redirect_url: owned("http://localhost:3001/google/auth/response"),
        revocation_url: owned("https://oauth2.googleapis.com/revoke"),
        scopes,
    }
}

/// Where the user is sent once Google answered.
pub fn after_google_auth_url() -> (r: &'static str)
    ensures
        r@ == "http://localhost:3001/"@,
{
    "http://localhost:3001/"
}


/// A started Google sign-in: the address the user opens, the CSRF state that Google
/// sends back, and the PKCE verifier that the token exchange needs.
#[derive(Debug, PartialEq)]
pub struct GoogleAuthorization {
    pub url: String,
    pub csrf_state: String,
    pub pkce_verifier: String,
}

/// Google's authorization endpoint.
pub open spec fn google_auth_endpoint() -> Seq<char> {
    "https://accounts.google.com/o/oauth2/v2/auth"@
}

/// The address to which Google sends the user back after sign-in.
pub open spec fn google_auth_redirect() -> Seq<char> {
    "http://localhost:3001/google/auth/response"@
}

/// The form encoding (`application/x-www-form-urlencoded`) of the UTF-8 bytes of `s`, as
/// the `url` crate writes a query value.
pub uninterp spec fn form_encoded(s: Seq<char>) -> Seq<char>;

/// The PKCE S256 challenge of `verifier`: the unpadded URL-safe Base64 of its SHA-256.
pub uninterp spec fn pkce_challenge(verifier: Seq<char>) -> Seq<char>;

/// The address of an authorization-code request with PKCE, from the already encoded
/// query values: the endpoint, then the fields `response_type`, `client_id`, `state`,
/// `code_challenge`, `code_challenge_method`, `redirect_uri` and, when there is one,
/// `scope`.
pub open spec fn authorize_address(
    client_id: Seq<char>,
    state: Seq<char>,
    challenge: Seq<char>,
    redirect_url: Seq<char>,
    scope: Option<Seq<char>>,
) -> Seq<char> {
    google_auth_endpoint() + "?response_type=code&client_id="@ + client_id + "&state="@ + state
        + "&code_challenge="@ + challenge + "&code_challenge_method=S256&redirect_uri="@
        + redirect_url + match scope {
            Some(t) => "&scope="@ + t,
            None => Seq::empty(),
        }
}

/// The `scope` value of a request: the scopes joined by spaces, none when that is empty.
pub open spec fn scope_text(scopes: Seq<Seq<char>>) -> Option<Seq<char>> {
    if joined(scopes, " "@).len() > 0 {
        Some(joined(scopes, " "@))
    } else {
        None
    }
}

/// The address of an authorization-code request for `client_id` that redirects to
/// `redirect_url`, asks for `scopes`, carries `state` and the PKCE challenge `challenge`,
/// each value form-encoded.
pub open spec fn google_authorize_url(
    client_id: Seq<char>,
    redirect_url: Seq<char>,
    scopes: Seq<Seq<char>>,
    state: Seq<char>,
    challenge: Seq<char>,
) -> Seq<char> {
    authorize_address(
        form_encoded(client_id),
        form_encoded(state),
        form_encoded(challenge),
        form_encoded(redirect_url),
        match scope_text(scopes) {
            Some(t) => Some(form_encoded(t)),
            None => None,
        },
    )
}

/// Starts an authorization-code request with `oauth2`: a random CSRF state (16 random
/// bytes, 22 characters of URL-safe Base64) and a random PKCE verifier (32 bytes, 43
/// characters) with its S256 challenge. The state and verifier are random, so only their
/// length and how the address is built from them are stated. The two addresses it takes
/// are the fixed endpoint and redirect of this service, which parse as URLs, so it always
/// gives a request.
#[verifier::external_body]
fn google_authorization(
    client_id: &str,
    client_secret: &str,
    auth_url: &str,
    redirect_url: &str,
    scopes: Vec<String>,
) -> (r: Option<GoogleAuthorization>)
    requires
        auth_url@ == google_auth_endpoint(),
        redirect_url@ == google_auth_redirect(),
    ensures
        r is Some,
        r matches Some(a) ==> {
            &&& a.url@ == authorize_address(
                form_encoded(client_id@),
                form_encoded(a.csrf_state@),
                form_encoded(pkce_challenge(a.pkce_verifier@)),
                form_encoded(redirect_url@),
                match scope_text(scopes@.map_values(|s: String| s@)) {
                    Some(t) => Some(form_encoded(t)),
                    None => None,
                },
            )
            &&& a.csrf_state@.len() == 22
            &&& a.pkce_verifier@.len() == 43
        },
{
    let auth = AuthUrl::new(auth_url.to_string()).ok()?;
    let redirect = RedirectUrl::new(redirect_url.to_string()).ok()?;
    let secret = Some(ClientSecret::new(client_secret.to_string()));
    let client = BasicClient::new(ClientId::new(client_id.to_string()), secret, auth, None)
        .set_redirect_uri(redirect);
    let (challenge, verifier) = PkceCodeChallenge::new_random_sha256();
    let (url, csrf) = client.authorize_url(CsrfToken::new_random)
        .add_scopes(scopes.into_iter().map(Scope::new)).set_pkce_challenge(challenge).url();
    Some(GoogleAuthorization {
        url: url.to_string(),
        csrf_state: csrf.secret().clone(),
        pkce_verifier: verifier.secret().clone(),
    })
}

/// Starts a Google sign-in for the application `client_id`: the address asks for the
/// calendar and profile scopes and redirects to the service's sign-in response route.
pub fn google_auth(client_id: &str, client_secret: &str) -> (a: GoogleAuthorization)
    ensures
        a.url@ == google_authorize_url(
            client_id@,
            google_auth_redirect(),
            seq!["https://www.googleapis.com/auth/calendar"@, "https://www.googleapis.com/auth/plus.me"@],
            a.csrf_state@,
            pkce_challenge(a.pkce_verifier@),
        ),
        a.csrf_state@.len() == 22,
        a.pkce_verifier@.len() == 43,
{
    let settings = google_oauth_settings();
    assert(settings.scopes@.map_values(|s: String| s@) =~= seq![
        "https://www.googleapis.com/auth/calendar"@,
        "https://www.googleapis.com/auth/plus.me"@,
    ]);
    let started = google_authorization(
        client_id,
        client_secret,
        settings.auth_url.as_str(),
        settings.redirect_url.as_str(),
        settings.scopes,
    );
    started.unwrap()
}

} // verus!
