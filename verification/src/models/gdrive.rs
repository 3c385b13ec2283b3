use vstd::prelude::*;

verus! {

/// One page of the file list of a drive.
#[derive(Debug, PartialEq)]
pub struct GDriveResponse {
    pub files: Vec<GFile>,
    pub incomplete_search: bool,
    pub kind: String,
    pub next_page_token: Option<String>,
}

/// A file of a drive.
#[derive(Debug, PartialEq)]
pub struct GFile {
    pub created_time: String,
    pub id: String,
    pub mime_type: String,
    pub modified_time: String,
    pub name: String,
    pub owners: Vec<Owner>,
    pub web_view_link: String,
}

/// An owner of a drive file.
#[derive(Debug, PartialEq)]
pub struct Owner {
    pub display_name: String,
    pub email_address: String,
    pub kind: String,
    pub me: bool,
    pub permission_id: String,
    pub photo_link: String,
}

} // verus!
