use vstd::prelude::*;

verus! {

/// An error of the user store.
#[derive(Debug, PartialEq)]
pub enum DbError {
    BadRequest(String),
    UserNotFound,
    InternalServerError(String),
}

/// An error of a request about a user or an integration.
#[derive(Debug, PartialEq)]
pub enum UserError {
    BadRequest(String),
    Unauthorized(String),
    InternalServerError(String),
}

impl DbError {
    /// The HTTP status and the message of the error reply: 500 with the message for an
    /// internal error, 400 with the message for a bad request, 404 "User Not Found".
    pub fn status_and_message(&self) -> (r: (u16, &str))
        ensures
            match *self {
                DbError::InternalServerError(m) => r.0 == 500 && r.1@ == m@,
                DbError::BadRequest(m) => r.0 == 400 && r.1@ == m@,
                DbError::UserNotFound => r.0 == 404 && r.1@ == "User Not Found"@,
            },
    {
        match self {
            DbError::InternalServerError(msg) => (500, msg.as_str()),
            DbError::BadRequest(msg) => (400, msg.as_str()),
            DbError::UserNotFound => (404, "User Not Found"),
        }
    }

    /// The error of a failed store operation, carrying the store's message.
    pub fn from_store_message(message: String) -> (r: DbError)
        ensures
            r == DbError::BadRequest(message),
    {
        DbError::BadRequest(message)
    }
}

impl UserError {
    /// The HTTP status and the message of the error reply: 400 for a bad request, 401 for
    /// a refused credential, 500 for an internal error, each with its message.
    pub fn status_and_message(&self) -> (r: (u16, &str))
        ensures
            match *self {
                UserError::BadRequest(m) => r.0 == 400 && r.1@ == m@,
                UserError::Unauthorized(m) => r.0 == 401 && r.1@ == m@,
                UserError::InternalServerError(m) => r.0 == 500 && r.1@ == m@,
            },
    {
        match self {
            UserError::BadRequest(msg) => (400, msg.as_str()),
            UserError::Unauthorized(msg) => (401, msg.as_str()),
            UserError::InternalServerError(msg) => (500, msg.as_str()),
        }
    }
}

} // verus!
