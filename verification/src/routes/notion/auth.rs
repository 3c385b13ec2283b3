use vstd::prelude::*;

use crate::utilities::text::{concat2, concat3, owned};

verus! {

/// The form that exchanges a temporary code for a Notion access token.
#[derive(Debug, PartialEq)]
pub struct TokenRequest {
    pub grant_type: String,
    pub code: String,
    pub redirect_uri: String,
}

/// The temporary code that Notion handed to the front end, and the credentials of the
/// integration.
#[derive(Debug, PartialEq)]
pub struct NotionAuthRequest {
    pub temp_code: String,
    pub notion_client_id: String,
    pub notion_secret: String,
}

/// The standard Base64 text of the UTF-8 bytes of `s`.
pub uninterp spec fn base64_of(s: Seq<char>) -> Seq<char>;

/// Encodes the UTF-8 bytes of `s` in standard Base64 with `openssl::base64::encode_block`,
/// which stops with a panic when the encoded length does not fit in a C `int`; the bound
/// below (four bytes at most per character) keeps the input well under that length.
#[verifier::external_body]
pub(crate) fn base64_text(s: &str) -> (r: String)
    requires
        s@.len() <= 400_000_000,
    ensures
        r@ == base64_of(s@),
{
    openssl::base64::encode_block(s.as_bytes())
}

/// The address of Notion's token endpoint.
pub fn notion_token_url() -> (r: &'static str)
    ensures
        r@ == "https://api.notion.com/v1/oauth/token"@,
{
    "https://api.notion.com/v1/oauth/token"
}

/// The `Authorization` header of a token request: HTTP basic authentication with the
/// integration's id and secret.
pub fn notion_basic_authorization(client_id: &str, secret: &str) -> (r: String)
    requires
        client_id@.len() + secret@.len() < 400_000_000,
    ensures
        r@ == "Basic "@ + base64_of(client_id@ + ":"@ + secret@),
{
    let credentials = concat3(client_id, ":", secret);
    proof {
        reveal_strlit(":");
    }
    let encoded = base64_text(credentials.as_str());
    concat2("Basic ", encoded.as_str())
}

/// The form that exchanges `temp_code` for an access token: an authorization-code grant
/// that redirects to the front end.
pub fn notion_token_request(temp_code: &str) -> (r: TokenRequest)
    ensures
        r.grant_type@ == "authorization_code"@,
        r.code@ == temp_code@,
        r.redirect_uri@ == "http://localhost:5173/notion-access-redirect"@,
{
    TokenRequest {
        grant_type: owned("authorization_code"),
        code: owned(temp_code),
        redirect_uri: owned("http://localhost:5173/notion-access-redirect"),
    }
}

} // verus!
