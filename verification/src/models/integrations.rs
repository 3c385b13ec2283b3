use vstd::prelude::*;

use crate::utilities::json::JsonValue;
use crate::utilities::time::Timestamp;

verus! {

/// A platform of a stored integration.
#[derive(Debug, Clone, Copy, PartialEq, Eq, Structural)]
pub enum IntegrationPlatform {
    File,
    Notion,
    Google,
    Discord,
    Slack,
}

/// An integration as the store holds it.
#[derive(Debug, PartialEq)]
pub struct Integration {
    pub id: Option<i64>,
    pub user_id: i64,
    pub oauth_provider_id: Option<String>,
    pub access_token: Option<String>,
    pub email: String,
    pub integration_data: Option<JsonValue>,
    pub scopes: Option<Vec<String>>,
    pub platform: IntegrationPlatform,
    pub created_at: Option<Timestamp>,
    pub updated_at: Option<Timestamp>,
}

} // verus!
