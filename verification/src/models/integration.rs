use vstd::prelude::*;

use crate::utilities::json::JsonValue;
use crate::utilities::text::{concat2, lowercase, same_text, to_lowercase};

verus! {

/// An integration of a user, as the store lists it.
#[derive(Debug, PartialEq)]
pub struct IntegrationResponse {
    pub email: String,
    pub oauth_provider_id: Option<String>,
    pub scopes: Option<Vec<String>>,
    pub integration_platform: Platform,
}

/// A request to add (or replace) an integration of a user.
#[derive(Debug, PartialEq)]
pub struct AddIntegration {
    pub email: String,
    pub oauth_provider_id: Option<String>,
    pub integration_platform: usize,
    pub access_token: String,
    pub scopes: Option<Vec<String>>,
    pub extra: Option<JsonValue>,
}

/// A platform that a user can integrate.
#[derive(Debug, Clone, Copy, PartialEq, Eq, Structural)]
pub enum Platform {
    File,
    Notion,
    Google,
    Discord,
    Slack,
}

/// The platform of each index that requests use, in order.
pub open spec fn platform_at(index: nat) -> Platform {
    if index == 0 {
        Platform::File
    } else if index == 1 {
        Platform::Notion
    } else if index == 2 {
        Platform::Google
    } else if index == 3 {
        Platform::Discord
    } else {
        Platform::Slack
    }
}

/// The lowercase name of a platform (the name the store and the replies use).
pub open spec fn platform_name(p: Platform) -> Seq<char> {
    match p {
        Platform::File => "file"@,
        Platform::Notion => "notion"@,
        Platform::Google => "google"@,
        Platform::Discord => "discord"@,
        Platform::Slack => "slack"@,
    }
}

/// The platform named `lower`, if any.
pub open spec fn platform_named(lower: Seq<char>) -> Option<Platform> {
    if lower == "file"@ {
        Some(Platform::File)
    } else if lower == "notion"@ {
        Some(Platform::Notion)
    } else if lower == "google"@ {
        Some(Platform::Google)
    } else if lower == "discord"@ {
        Some(Platform::Discord)
    } else if lower == "slack"@ {
        Some(Platform::Slack)
    } else {
        None
    }
}

impl Platform {
    /// The platform of the index `index` (0 file, 1 Notion, 2 Google, 3 Discord, 4 Slack).
    pub fn from(index: usize) -> (p: Platform)
        requires
            index < 5,
        ensures
            p == platform_at(index as nat),
    {
        if index == 0 {
            Platform::File
        } else if index == 1 {
            Platform::Notion
        } else if index == 2 {
            Platform::Google
        } else if index == 3 {
            Platform::Discord
        } else {
            Platform::Slack
        }
    }

    /// The platform named by the already lowercased `lower`; the refusal names `given`,
    /// the text as it was given.
    pub fn from_lowercase(lower: &str, given: &str) -> (r: Result<Platform, String>)
        ensures
            match r {
                Ok(p) => platform_named(lower@) == Some(p),
                Err(m) => platform_named(lower@) is None && m@ == "Invalid integration platform: "@ + given@,
            },
    {
        if same_text(lower, "file") {
            Ok(Platform::File)
        } else if same_text(lower, "notion") {
            Ok(Platform::Notion)
        } else if same_text(lower, "google") {
            Ok(Platform::Google)
        } else if same_text(lower, "discord") {
            Ok(Platform::Discord)
        } else if same_text(lower, "slack") {
            Ok(Platform::Slack)
        } else {
            Err(concat2("Invalid integration platform: ", given))
        }
    }

    /// The platform named by `s`, in any letter case.
    pub fn from_str(s: &str) -> (r: Result<Platform, String>)
        ensures
            match r {
                Ok(p) => platform_named(lowercase(s@)) == Some(p),
                Err(m) => platform_named(lowercase(s@)) is None && m@ == "Invalid integration platform: "@ + s@,
            },
    {
        let lower = to_lowercase(s);
        Platform::from_lowercase(lower.as_str(), s)
    }
}

/// Law: the index of a platform fixes it by value (0 file, 1 Notion, 2 Google, 3 Discord,
/// 4 Slack), and the platform of each index reads back from the lowercase name of that
/// platform.
pub proof fn lemma_platform_indices()
    ensures
        platform_at(0) == Platform::File,
        platform_at(1) == Platform::Notion,
        platform_at(2) == Platform::Google,
        platform_at(3) == Platform::Discord,
        platform_at(4) == Platform::Slack,
        platform_named("file"@) == Some(platform_at(0)),
        platform_named("notion"@) == Some(platform_at(1)),
        platform_named("google"@) == Some(platform_at(2)),
        platform_named("discord"@) == Some(platform_at(3)),
        platform_named("slack"@) == Some(platform_at(4)),
{
    lemma_platform_codes(Platform::File, 0, 0);
    lemma_platform_codes(Platform::Notion, 0, 0);
    lemma_platform_codes(Platform::Google, 0, 0);
    lemma_platform_codes(Platform::Discord, 0, 0);
    lemma_platform_codes(Platform::Slack, 0, 0);
}

/// Law: each of the five indices names a different platform, and every platform has an
/// index; the lowercase name of every platform reads back as that platform.
pub proof fn lemma_platform_codes(p: Platform, i: nat, j: nat)
    ensures
        i < 5 && j < 5 && i != j ==> platform_at(i) != platform_at(j),
        exists|k: nat| k < 5 && platform_at(k) == p,
        platform_named(platform_name(p)) == Some(p),
{
    reveal_strlit("file");
    reveal_strlit("notion");
    reveal_strlit("google");
    reveal_strlit("discord");
    reveal_strlit("slack");
    assert("file"@.len() == 4);
    assert("notion"@.len() == 6);
    assert("google"@.len() == 6);
    assert("discord"@.len() == 7);
    assert("slack"@.len() == 5);
    assert("notion"@[0] == 'n');
    assert("google"@[0] == 'g');
    assert("file"@ != "notion"@);
    assert("file"@ != "google"@);
    assert("file"@ != "discord"@);
    assert("file"@ != "slack"@);
    assert("notion"@ != "google"@);
    assert("notion"@ != "discord"@ && "notion"@ != "slack"@);
    assert("google"@ != "discord"@ && "google"@ != "slack"@);
    assert("discord"@ != "slack"@);
    match p {
        Platform::File => assert(platform_at(0) == p),
        Platform::Notion => assert(platform_at(1) == p),
        Platform::Google => assert(platform_at(2) == p),
        Platform::Discord => assert(platform_at(3) == p),
        Platform::Slack => assert(platform_at(4) == p),
    }
}

} // verus!
