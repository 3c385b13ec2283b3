use vstd::prelude::*;

use crate::models::integration::{platform_at, AddIntegration, Platform};
use crate::utilities::json::JsonValue;
use crate::utilities::numbers::{i64_from_text, parse_i64};

verus! {

/// An integration of a user as it is stored (a new one, or the replacement of the one of
/// the same user, e-mail and platform).
#[derive(Debug, PartialEq)]
pub struct IntegrationRecord {
    pub user_id: i64,
    pub email: String,
    pub oauth_provider_id: Option<String>,
    pub platform: Platform,
    pub access_token: String,
    pub extra: Option<JsonValue>,
    pub scopes: Option<Vec<String>>,
}

/// The integration to store for the user `user_id` from the request `payload`, whose
/// platform is given by its index.
pub fn prepare_integration(user_id: i64, payload: AddIntegration) -> (r: IntegrationRecord)
    requires
        payload.integration_platform < 5,
    ensures
        r.user_id == user_id,
        r.email == payload.email,
        r.oauth_provider_id == payload.oauth_provider_id,
        r.platform == platform_at(payload.integration_platform as nat),
        r.access_token == payload.access_token,
        r.extra == payload.extra,
        r.scopes == payload.scopes,
{
    IntegrationRecord {
        user_id,
        email: payload.email,
        oauth_provider_id: payload.oauth_provider_id,
        platform: Platform::from(payload.integration_platform),
        access_token: payload.access_token,
        extra: payload.extra,
        scopes: payload.scopes,
    }
}

/// What identifies the integration that the request `payload` removes: the user, the
/// e-mail and the platform given by its index.
pub fn removal_key(user_id: i64, payload: AddIntegration) -> (r: (i64, String, Platform))
    requires
        payload.integration_platform < 5,
    ensures
        r.0 == user_id,
        r.1 == payload.email,
        r.2 == platform_at(payload.integration_platform as nat),
{
    (user_id, payload.email, Platform::from(payload.integration_platform))
}

/// The user id held in the subject of a session token, when it is a number.
pub fn user_id_from_subject(sub: &str) -> (r: Option<i64>)
    ensures
        r == i64_from_text(sub@),
{
    parse_i64(sub)
}

} // verus!
