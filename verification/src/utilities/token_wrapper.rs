use vstd::prelude::*;

verus! {

/// The client id of the Notion integration.
#[derive(Debug, Clone, PartialEq)]
pub struct NotionClientId(pub String);

/// The admin key of the Typesense server.
#[derive(Debug, Clone, PartialEq)]
pub struct TypesenseSecret(pub String);

/// The verifier of a PKCE challenge.
#[derive(Debug, Clone, PartialEq)]
pub struct PkceCodeVerifierWrapper(pub String);

/// The client id of the Google application.
#[derive(Debug, Clone, PartialEq)]
pub struct GoogleClientId(pub String);

/// The client secret of the Google application.
#[derive(Debug, Clone, PartialEq)]
pub struct GoogleClientSecret(pub String);

/// The address that sends the service's e-mails.
#[derive(Debug, Clone, PartialEq)]
pub struct NoReplyEmailId(pub String);

/// The password of the address that sends the service's e-mails.
#[derive(Debug, Clone, PartialEq)]
pub struct NoReplySecret(pub String);

/// The SMTP server that sends the service's e-mails.
#[derive(Debug, Clone, PartialEq)]
pub struct NoReplyServer(pub String);

} // verus!
