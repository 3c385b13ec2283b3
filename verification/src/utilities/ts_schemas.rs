use vstd::prelude::*;

verus! {

/// A document as the search index describes it.
#[derive(Debug, PartialEq)]
pub struct DocumentIndex {
    pub name: String,
    pub created_time: String,
    pub last_edited_time: String,
    pub url: String,
    pub platform: String,
}

} // verus!
