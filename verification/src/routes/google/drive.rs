use vstd::prelude::*;

use crate::models::gdrive::{GDriveResponse, GFile, Owner};
use crate::routes::typesense::{DocumentView, Product, RowType, TypesenseInsert};
use crate::utilities::text::{concat2, join_texts, joined, owned};
use crate::utilities::time::{parse_rfc3339_seconds, rfc3339_seconds};

verus! {

/// The query that asks the drive for the fields the index needs.
pub open spec fn drive_fields_query() -> Seq<char> {
    "fields=kind,incompleteSearch,nextPageToken,files(id,name,mimeType,createdTime,modifiedTime,webViewLink,owners)"@
}

/// The e-mail addresses of `owners`, separated by ", ".
pub open spec fn owner_list(owners: Seq<Owner>) -> Seq<char> {
    joined(owners.map_values(|o: Owner| o.email_address@), ", "@)
}

/// Whether both dates of `file` are valid RFC 3339 date-times.
pub open spec fn file_dates_valid(file: GFile) -> bool {
    &&& rfc3339_seconds(file.modified_time@) is Some
    &&& rfc3339_seconds(file.created_time@) is Some
}

/// The document that indexes the drive file `file` of the account `email`: its name as
/// title, its type as contents, its owners, its link and its dates.
pub open spec fn file_document(file: GFile, email: Seq<char>) -> DocumentView {
    DocumentView {
        account_email: email,
        id: file.id@,
        title: file.name@,
        contents: file.mime_type@,
        url: file.web_view_link@,
        added_by: Some(owner_list(file.owners@)),
        platform: Product::GDrive,
        type_field: RowType::File,
        last_edited_time: rfc3339_seconds(file.modified_time@)->0,
        created_time: rfc3339_seconds(file.created_time@)->0,
    }
}

/// The address of one page of the drive's file list.
pub fn file_list_url(page_cursor: Option<&str>) -> (r: String)
    ensures
        r@ == match page_cursor {
            Some(p) => "https://www.googleapis.com/drive/v3/files?"@ + drive_fields_query() + "&pageToken="@ + p@,
            None => "https://www.googleapis.com/drive/v3/files?"@ + drive_fields_query(),
        },
{
    let base = concat2(
        "https://www.googleapis.com/drive/v3/files?",
        "fields=kind,incompleteSearch,nextPageToken,files(id,name,mimeType,createdTime,modifiedTime,webViewLink,owners)",
    );
    match page_cursor {
        Some(p) => {
            let with_token = concat2(base.as_str(), "&pageToken=");
            concat2(with_token.as_str(), p)
        },
        None => base,
    }
}

/// The e-mail addresses of `owners` separated by ", ".
fn owner_emails(owners: &Vec<Owner>) -> (r: String)
    ensures
        r@ == owner_list(owners@),
{
    let mut emails: Vec<String> = Vec::new();
    let n = owners.len();
    let mut i: usize = 0;
    while i < n
        invariant
            n == owners@.len(),
            i <= n,
            emails@.map_values(|e: String| e@) == owners@.take(i as int).map_values(
                |o: Owner| o.email_address@,
            ),
        decreases n - i,
    {
        emails.push(owners[i].email_address.clone());
        assert(owners@.take(i as int + 1).map_values(|o: Owner| o.email_address@)
            =~= owners@.take(i as int).map_values(|o: Owner| o.email_address@).push(
            owners@[i as int].email_address@));
        assert(emails@.map_values(|e: String| e@) =~= owners@.take(i as int + 1).map_values(
            |o: Owner| o.email_address@));
        i = i + 1;
    }
    assert(owners@.take(n as int) == owners@);
    join_texts(&emails, ", ")
}

/// The document that indexes the drive file `file` of the account `email`: its name as
/// title, its type as contents, its owners, its link and its dates.
pub fn parse_file(file: GFile, email: &str) -> (d: TypesenseInsert)
    requires
        file_dates_valid(file),
    ensures
        d@ == file_document(file, email@),
{
    let added_by = owner_emails(&file.owners);
    let last_edited_time = match parse_rfc3339_seconds(file.modified_time.as_str()) {
        Some(t) => t,
        None => 0,
    };
    let created_time = match parse_rfc3339_seconds(file.created_time.as_str()) {
        Some(t) => t,
        None => 0,
    };
    TypesenseInsert {
        account_email: owned(email),
        id: file.id,
        title: file.name,
        contents: file.mime_type,
        url: file.web_view_link,
        added_by: Some(added_by),
        platform: Product::GDrive,
        type_field: RowType::File,
        last_edited_time,
        created_time,
    }
}

/// The document of the drive file `file`, or `None` when one of its dates is not a valid
/// RFC 3339 date-time (a file that indexing cannot read).
pub fn checked_parse_file(file: GFile, email: &str) -> (r: Option<TypesenseInsert>)
    ensures
        match r {
            Some(d) => file_dates_valid(file) && d@ == file_document(file, email@),
            None => !file_dates_valid(file),
        },
{
    if parse_rfc3339_seconds(file.modified_time.as_str()).is_some()
        && parse_rfc3339_seconds(file.created_time.as_str()).is_some() {
        Some(parse_file(file, email))
    } else {
        None
    }
}


/// Whether every file of a listing page has valid dates.
pub open spec fn files_readable(files: Seq<GFile>) -> bool {
    forall|i: int| 0 <= i < files.len() ==> file_dates_valid(#[trigger] files[i])
}

/// The documents of one page of the drive's file list, one per file and in order, with
/// the token of the next page (none on the last page); `None` when a file's date is not
/// a valid RFC 3339 date-time (a file that indexing cannot read).
pub fn drive_page_documents(response: GDriveResponse, email: &str) -> (r: Option<(Vec<TypesenseInsert>, Option<String>)>)
    ensures
        match r {
            Some((docs, next)) => {
                &&& files_readable(response.files@)
                &&& docs@.map_values(|d: TypesenseInsert| d@) == response.files@.map_values(
                    |f: GFile| file_document(f, email@),
                )
                &&& next == response.next_page_token
            },
            None => !files_readable(response.files@),
        },
{
    let GDriveResponse { files, incomplete_search: _, kind: _, next_page_token } = response;
    let ghost all = files@;
    let mut rest = files;
    let mut docs: Vec<TypesenseInsert> = Vec::new();
    let n = rest.len();
    let mut i: usize = 0;
    assert(all.skip(0) == all);
    while i < n
        invariant
            n == all.len(),
            all == response.files@,
            i <= n,
            rest@ == all.skip(i as int),
            forall|j: int| 0 <= j < i ==> file_dates_valid(#[trigger] all[j]),
            docs@.len() == i,
            docs@.map_values(|d: TypesenseInsert| d@) == all.take(i as int).map_values(
                |f: GFile| file_document(f, email@),
            ),
        decreases n - i,
    {
        assert(rest@.len() == n - i);
        let file = rest.remove(0);
        assert(file == all[i as int]);
        assert(rest@ =~= all.skip(i as int + 1));
        let ghost before = docs@;
        match checked_parse_file(file, email) {
            Some(d) => {
                docs.push(d);
                assert(all.take(i as int + 1) =~= all.take(i as int).push(all[i as int]));
                assert forall|j: int| 0 <= j < i implies docs@[j]@ == file_document(all[j], email@) by {
                    assert(before.map_values(|d: TypesenseInsert| d@)[j] == all.take(i as int).map_values(
                        |f: GFile| file_document(f, email@))[j]);
                }
                assert(docs@.map_values(|d: TypesenseInsert| d@) =~= all.take(i as int + 1).map_values(
                    |f: GFile| file_document(f, email@),
                ));
            },
            None => {
                return None;
            },
        }
        i = i + 1;
    }
    assert(all.take(n as int) == all);
    Some((docs, next_page_token))
}

} // verus!
