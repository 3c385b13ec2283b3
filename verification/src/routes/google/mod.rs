pub mod auth;
pub mod drive;
pub mod mail;
pub mod retrieve_calendar;

use vstd::prelude::*;

verus! {

/// The account whose data is to be indexed.
#[derive(Debug, PartialEq)]
pub struct IndexGoogleRequest {
    pub email: String,
}

} // verus!
