use vstd::prelude::*;

use super::Product;
use crate::utilities::text::{concat3, owned};

verus! {

/// The JSON-lines file that the indexing of `product` for `user` writes, if it writes one.
pub open spec fn export_path(product: Product, user: Seq<char>) -> Option<Seq<char>> {
    match product {
        Product::Notion => Some("notion_blocks_"@ + user + ".jsonl"@),
        Product::GCalendar => Some("google_calendar_events_"@ + user + ".jsonl"@),
        Product::GDrive => Some("google_calendar_events_"@ + user + ".jsonl"@),
        Product::GMail => Some("google_mail_"@ + user + ".jsonl"@),
        _ => None,
    }
}

/// The JSON-lines file that the batch import of `product` for `user` reads, or the
/// refusal of a product that has no import.
pub open spec fn import_path(product: Product, user: Seq<char>) -> Result<Seq<char>, Seq<char>> {
    match product {
        Product::Notion => Ok("notion_blocks_"@ + user + ".jsonl"@),
        Product::GCalendar => Ok("google_calendar_events_"@ + user + ".jsonl"@),
        Product::GMail => Ok("google_mail_"@ + user + ".jsonl"@),
        _ => Err("Invalid platform"@),
    }
}

/// The file that the indexing of `product` writes for `user_id` (drive files go to the
/// same file as calendar events).
pub fn export_file_path(product: Product, user_id: &str) -> (r: Option<String>)
    ensures
        match r {
            Some(p) => export_path(product, user_id@) == Some(p@),
            None => export_path(product, user_id@) is None,
        },
{
    match product {
        Product::Notion => Some(concat3("notion_blocks_", user_id, ".jsonl")),
        Product::GCalendar => Some(concat3("google_calendar_events_", user_id, ".jsonl")),
        Product::GDrive => Some(concat3("google_calendar_events_", user_id, ".jsonl")),
        Product::GMail => Some(concat3("google_mail_", user_id, ".jsonl")),
        _ => None,
    }
}

/// The file that the batch import of `product` reads for `user_id`; the products without
/// an import are refused with "Invalid platform".
pub fn import_file_path(product: Product, user_id: &str) -> (r: Result<String, String>)
    ensures
        match r {
            Ok(p) => import_path(product, user_id@) == Ok::<Seq<char>, Seq<char>>(p@),
            Err(e) => import_path(product, user_id@) == Err::<Seq<char>, Seq<char>>(e@),
        },
{
    match product {
        Product::Notion => Ok(concat3("notion_blocks_", user_id, ".jsonl")),
        Product::GCalendar => Ok(concat3("google_calendar_events_", user_id, ".jsonl")),
        Product::GMail => Ok(concat3("google_mail_", user_id, ".jsonl")),
        _ => Err(owned("Invalid platform")),
    }
}

/// Law: for every product that has an import, the import reads the very file that the
/// indexing of that product wrote.
pub proof fn lemma_import_reads_export(product: Product, user: Seq<char>)
    requires
        import_path(product, user) is Ok,
    ensures
        export_path(product, user) == Some(import_path(product, user)->Ok_0),
{
}

/// The address to which the documents of `user_id` are imported.
pub fn import_url(user_id: &str) -> (r: String)
    ensures
        r@ == "http://localhost:8108/collections/"@ + user_id@
            + "/documents/import?action=create"@,
{
    concat3("http://localhost:8108/collections/", user_id, "/documents/import?action=create")
}

/// The outcome of a batch import from the HTTP status of Typesense's reply: success on
/// 200, an error otherwise.
pub fn import_outcome(status: u16) -> (r: Result<String, String>)
    ensures
        status == 200 ==> (r matches Ok(m) && m@ == "Success"@),
        status != 200 ==> (r matches Err(m) && m@ == "Error"@),
{
    if status == 200 {
        Ok(owned("Success"))
    } else {
        Err(owned("Error"))
    }
}

/// The reply of the single-document import endpoint from the HTTP status of Typesense's
/// reply: 200 "Success", or 500 "Error".
pub fn single_import_reply(status: u16) -> (r: (u16, &'static str))
    ensures
        status == 200 ==> r.0 == 200 && r.1@ == "Success"@,
        status != 200 ==> r.0 == 500 && r.1@ == "Error"@,
{
    if status == 200 {
        (200, "Success")
    } else {
        (500, "Error")
    }
}

} // verus!
