pub mod index;
pub mod schema_control;

use vstd::prelude::*;

verus! {

/// A Typesense collection schema.
#[derive(Debug, PartialEq)]
pub struct TypesenseCollection {
    pub name: String,
    pub num_documents: i64,
    pub fields: Vec<TypesenseField>,
    pub default_sorting_field: String,
}

/// One field of a Typesense collection schema.
#[derive(Debug, PartialEq)]
pub struct TypesenseField {
    pub name: String,
    pub type_field: String,
    pub facet: bool,
}

/// One document to be indexed in Typesense.
#[derive(Debug, PartialEq)]
pub struct TypesenseInsert {
    pub account_email: String,
    pub id: String,
    pub title: String,
    pub contents: String,
    pub url: String,
    pub added_by: Option<String>,
    pub platform: Product,
    pub type_field: RowType,
    pub last_edited_time: i64,
    pub created_time: i64,
}

/// The content of a document to be indexed, as plain values.
pub struct DocumentView {
    pub account_email: Seq<char>,
    pub id: Seq<char>,
    pub title: Seq<char>,
    pub contents: Seq<char>,
    pub url: Seq<char>,
    pub added_by: Option<Seq<char>>,
    pub platform: Product,
    pub type_field: RowType,
    pub last_edited_time: i64,
    pub created_time: i64,
}

impl View for TypesenseInsert {
    type V = DocumentView;

    open spec fn view(&self) -> DocumentView {
        DocumentView {
            account_email: self.account_email@,
            id: self.id@,
            title: self.title@,
            contents: self.contents@,
            url: self.url@,
            added_by: match self.added_by {
                Some(a) => Some(a@),
                None => None,
            },
            platform: self.platform,
            type_field: self.type_field,
            last_edited_time: self.last_edited_time,
            created_time: self.created_time,
        }
    }
}

/// The product a document was indexed from.
#[derive(Debug, Clone, Copy, PartialEq, Eq, Structural)]
pub enum Product {
    File,
    Notion,
    GCalendar,
    GMail,
    GDrive,
    Discord,
    Slack,
}

/// The kind of a document.
#[derive(Debug, Clone, Copy, PartialEq, Eq, Structural)]
pub enum RowType {
    File,
    Event,
    Email,
    Message,
    Task,
}

impl Default for Product {
    fn default() -> (r: Self)
        ensures
            r == Product::File,
    {
        Product::File
    }
}

impl Default for RowType {
    fn default() -> (r: Self)
        ensures
            r == RowType::File,
    {
        RowType::File
    }
}

/// The reply of Typesense to the creation of an API key.
#[derive(Debug, PartialEq)]
pub struct ApiKeyResponse {
    pub actions: Vec<String>,
    pub collections: Vec<String>,
    pub description: String,
    pub expires_at: Option<i64>,
    pub id: i64,
    pub value: String,
}

} // verus!
