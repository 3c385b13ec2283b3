use vstd::prelude::*;

use crate::utilities::text::{concat2, lowercase, same_text, to_lowercase};
use crate::utilities::time::Timestamp;

verus! {

/// The form of a new account.
#[derive(Debug, PartialEq)]
pub struct SignUpForm {
    pub email: String,
    pub google_token: Option<String>,
    pub password: Option<String>,
    pub account_type: usize,
}

/// A user account as the store holds it.
#[derive(Debug, PartialEq)]
pub struct User {
    pub id: i64,
    pub first_name: String,
    pub last_name: String,
    pub email: String,
    pub password: String,
    pub date_of_birth: Option<Timestamp>,
    pub phone_number: Option<String>,
    pub city: Option<String>,
    pub country: Option<String>,
    pub created_at: Timestamp,
    pub updated_at: Timestamp,
    pub account_type: AccountType,
}

/// How a user signs in: with a password, or with a Google account.
#[derive(Debug, Clone, Copy, PartialEq, Eq, Structural)]
pub enum AccountType {
    Credentials,
    Google,
}

/// The lowercase name of an account type (the name the store uses).
pub open spec fn account_type_name(a: AccountType) -> Seq<char> {
    match a {
        AccountType::Credentials => "credentials"@,
        AccountType::Google => "google"@,
    }
}

/// The account type named `lower`, if any.
pub open spec fn account_type_named(lower: Seq<char>) -> Option<AccountType> {
    if lower == "credentials"@ {
        Some(AccountType::Credentials)
    } else if lower == "google"@ {
        Some(AccountType::Google)
    } else {
        None
    }
}

impl AccountType {
    /// The account type of the index `index` (0 credentials, 1 Google).
    pub fn from(index: usize) -> (a: AccountType)
        requires
            index < 2,
        ensures
            a == (if index == 0 { AccountType::Credentials } else { AccountType::Google }),
    {
        if index == 0 {
            AccountType::Credentials
        } else {
            AccountType::Google
        }
    }

    /// The account type named by the already lowercased `lower`; the refusal names
    /// `given`, the text as it was given.
    pub fn from_lowercase(lower: &str, given: &str) -> (r: Result<AccountType, String>)
        ensures
            match r {
                Ok(a) => account_type_named(lower@) == Some(a),
                Err(m) => account_type_named(lower@) is None && m@ == "Invalid account type: "@ + given@,
            },
    {
        if same_text(lower, "credentials") {
            Ok(AccountType::Credentials)
        } else if same_text(lower, "google") {
            Ok(AccountType::Google)
        } else {
            Err(concat2("Invalid account type: ", given))
        }
    }

    /// The account type named by `s`, in any letter case.
    pub fn from_str(s: &str) -> (r: Result<AccountType, String>)
        ensures
            match r {
                Ok(a) => account_type_named(lowercase(s@)) == Some(a),
                Err(m) => account_type_named(lowercase(s@)) is None && m@ == "Invalid account type: "@ + s@,
            },
    {
        let lower = to_lowercase(s);
        AccountType::from_lowercase(lower.as_str(), s)
    }

    /// The lowercase name of the account type.
    pub fn to_str(&self) -> (r: &'static str)
        ensures
            r@ == account_type_name(*self),
    {
        match self {
            AccountType::Credentials => "credentials",
            AccountType::Google => "google",
        }
    }
}

/// Law: the name of every account type reads back as that account type.
pub proof fn lemma_account_type_name_roundtrip(a: AccountType)
    ensures
        account_type_named(account_type_name(a)) == Some(a),
{
    reveal_strlit("credentials");
    reveal_strlit("google");
    assert("credentials"@.len() == 11);
    assert("google"@.len() == 6);
}

} // verus!
