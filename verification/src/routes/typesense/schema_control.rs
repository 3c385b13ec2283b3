use vstd::prelude::*;

use super::{TypesenseCollection, TypesenseField};
use crate::utilities::numbers::{i64_text, int_text};
use crate::utilities::errors::UserError;
use crate::utilities::text::{concat2, owned};

verus! {

/// Name, type and facet flag of a schema field.
pub open spec fn field_summary(f: TypesenseField) -> (Seq<char>, Seq<char>, bool) {
    (f.name@, f.type_field@, f.facet)
}

/// The fields of every user's document collection, in order.
pub open spec fn document_schema_fields() -> Seq<(Seq<char>, Seq<char>, bool)> {
    seq![
        ("account_email"@, "string"@, false),
        ("title"@, "string"@, false),
        ("contents"@, "string"@, false),
        ("url"@, "string"@, false),
        ("platform"@, "string"@, true),
        ("type"@, "string"@, true),
        ("last_edited_time"@, "int64"@, false),
        ("created_time"@, "int64"@, false),
    ]
}

/// Whether a schema is sound for the documents it indexes: its field names are distinct,
/// the sorting field is one of them (so exactly one) and holds `int64` values, and the
/// facets are exactly the fields `platform` and `type`.
pub open spec fn schema_well_formed(fields: Seq<(Seq<char>, Seq<char>, bool)>, sort: Seq<char>) -> bool {
    &&& forall|a: int, b: int| 0 <= a < b < fields.len() ==> fields[a].0 != fields[b].0
    &&& exists|k: int| 0 <= k < fields.len() && fields[k].0 == sort && fields[k].1 == "int64"@
    &&& forall|k: int| 0 <= k < fields.len() ==> (fields[k].2 <==> (fields[k].0 == "platform"@
        || fields[k].0 == "type"@))
}

/// Whether every field of a schema holds the type of the document attribute it indexes:
/// the two times are `int64`, every other attribute (the e-mail, title, contents, url,
/// platform and type) is a `string`.
pub open spec fn schema_types_match(fields: Seq<(Seq<char>, Seq<char>, bool)>) -> bool {
    forall|k: int| 0 <= k < fields.len() ==> (#[trigger] fields[k]).1 == (if fields[k].0
        == "last_edited_time"@ || fields[k].0 == "created_time"@ {
        "int64"@
    } else {
        "string"@
    })
}

/// Law: the document schema has a field for each attribute of an indexed document, and
/// each field's type is that attribute's type: the e-mail, title, contents, url, platform
/// and type are strings, the two times are 64-bit integers.
pub proof fn lemma_document_schema_field_types()
    ensures
        schema_types_match(document_schema_fields()),
        document_schema_fields().map_values(|f: (Seq<char>, Seq<char>, bool)| f.0) == seq![
            "account_email"@, "title"@, "contents"@, "url"@, "platform"@, "type"@,
            "last_edited_time"@, "created_time"@,
        ],
{
    reveal_strlit("account_email");
    reveal_strlit("title");
    reveal_strlit("contents");
    reveal_strlit("url");
    reveal_strlit("platform");
    reveal_strlit("type");
    reveal_strlit("last_edited_time");
    reveal_strlit("created_time");
    let f = document_schema_fields();
    assert(f[0].0.len() == 13 && f[1].0.len() == 5 && f[2].0.len() == 8 && f[3].0.len() == 3);
    assert(f[4].0.len() == 8 && f[5].0.len() == 4 && f[6].0.len() == 16 && f[7].0.len() == 12);
    assert(f.map_values(|x: (Seq<char>, Seq<char>, bool)| x.0) =~= seq![
        "account_email"@, "title"@, "contents"@, "url"@, "platform"@, "type"@,
        "last_edited_time"@, "created_time"@,
    ]);
}

proof fn lemma_document_schema_well_formed()
    ensures
        schema_well_formed(document_schema_fields(), "created_time"@),
{
    reveal_strlit("account_email");
    reveal_strlit("title");
    reveal_strlit("contents");
    reveal_strlit("url");
    reveal_strlit("platform");
    reveal_strlit("type");
    reveal_strlit("last_edited_time");
    reveal_strlit("created_time");
    reveal_strlit("int64");
    reveal_strlit("string");
    let f = document_schema_fields();
    assert(f.len() == 8);
    assert(f[0].0.len() == 13 && f[1].0.len() == 5 && f[2].0.len() == 8 && f[3].0.len() == 3);
    assert(f[4].0.len() == 8 && f[5].0.len() == 4 && f[6].0.len() == 16 && f[7].0.len() == 12);
    assert(f[2].0[0] != f[4].0[0]);
    assert forall|a: int, b: int| 0 <= a < b < f.len() implies f[a].0 != f[b].0 by {
        if a == 2 && b == 4 {
            assert(f[a].0[0] != f[b].0[0]);
        }
    }
    assert(f[7].0 == "created_time"@ && f[7].1 == "int64"@);
    assert forall|k: int| 0 <= k < f.len() implies (f[k].2 <==> (f[k].0 == "platform"@
        || f[k].0 == "type"@)) by {
        if k == 2 {
            assert(f[k].0[0] != "platform"@[0]);
        }
    }
}

fn schema_field(name: &str, type_field: &str, facet: bool) -> (f: TypesenseField)
    ensures
        field_summary(f) == (name@, type_field@, facet),
{
    TypesenseField { name: owned(name), type_field: owned(type_field), facet }
}

/// The schema of the document collection of the user `id`: the collection is named after
/// the user's id and is sorted by creation time.
pub fn generate_document_schema(id: i64) -> (c: TypesenseCollection)
    ensures
        c.name@ == int_text(id as int),
        c.num_documents == 0,
        c.fields@.map_values(|f: TypesenseField| field_summary(f)) == document_schema_fields(),
        c.default_sorting_field@ == "created_time"@,
        schema_well_formed(c.fields@.map_values(|f: TypesenseField| field_summary(f)), c.default_sorting_field@),
        schema_types_match(c.fields@.map_values(|f: TypesenseField| field_summary(f))),
{
    let mut fields: Vec<TypesenseField> = Vec::new();
    fields.push(schema_field("account_email", "string", false));
    fields.push(schema_field("title", "string", false));
    fields.push(schema_field("contents", "string", false));
    fields.push(schema_field("url", "string", false));
    fields.push(schema_field("platform", "string", true));
    fields.push(schema_field("type", "string", true));
    fields.push(schema_field("last_edited_time", "int64", false));
    fields.push(schema_field("created_time", "int64", false));
    let c = TypesenseCollection {
        name: i64_text(id),
        num_documents: 0,
        fields,
        default_sorting_field: owned("created_time"),
    };
    assert(c.fields@.map_values(|f: TypesenseField| field_summary(f)) =~= document_schema_fields());
    proof {
        reveal_strlit("created_time");
        lemma_document_schema_well_formed();
        lemma_document_schema_field_types();
    }
    c
}

/// The address of the Typesense collection of the user `id`.
pub fn collection_url(id: i64) -> (r: String)
    ensures
        r@ == "http://localhost:8108/collections/"@ + int_text(id as int),
{
    let id_text = i64_text(id);
    concat2("http://localhost:8108/collections/", id_text.as_str())
}

/// The address of the Typesense API key `id`.
pub fn api_key_url(id: i64) -> (r: String)
    ensures
        r@ == "http://localhost:8108/keys/"@ + int_text(id as int),
{
    let id_text = i64_text(id);
    concat2("http://localhost:8108/keys/", id_text.as_str())
}

/// The request for a search-only API key of the collection of the user `id`.
#[derive(Debug, PartialEq)]
pub struct ReadApiKeyRequest {
    pub description: String,
    pub actions: Vec<String>,
    pub collections: Vec<String>,
}

/// The request for a key that may only search the collection of the user `id`.
pub fn read_api_key_request(id: i64) -> (r: ReadApiKeyRequest)
    ensures
        r.description@ == "Read only API key"@,
        r.actions@.len() == 1,
        r.actions@[0]@ == "documents:search"@,
        r.collections@.len() == 1,
        r.collections@[0]@ == int_text(id as int),
{
    let mut actions: Vec<String> = Vec::new();
    actions.push(owned("documents:search"));
    let mut collections: Vec<String> = Vec::new();
    collections.push(i64_text(id));
    ReadApiKeyRequest { description: owned("Read only API key"), actions, collections }
}

/// The key that the user held before a key update, which is to be revoked: the store
/// answers with the old key's id, or with nothing when the user had none.
pub fn superseded_api_key(old_id: Option<Option<i64>>) -> (r: Option<i64>)
    ensures
        r == match old_id {
            Some(Some(k)) => Some(k),
            _ => None::<i64>,
        },
{
    match old_id {
        Some(Some(k)) => Some(k),
        _ => None,
    }
}


/// The address of the list of all collections.
pub fn collections_url() -> (r: &'static str)
    ensures
        r@ == "http://localhost:8108/collections"@,
{
    "http://localhost:8108/collections"
}

/// The address at which new API keys are created.
pub fn keys_url() -> (r: &'static str)
    ensures
        r@ == "http://localhost:8108/keys"@,
{
    "http://localhost:8108/keys"
}

/// The outcome of creating a user's collection, from whether Typesense's reply could be
/// read as JSON (or the reason it could not).
pub fn schema_creation_result(reply: core::result::Result<(), String>) -> (r: core::result::Result<String, UserError>)
    ensures
        match reply {
            Ok(_) => r matches Ok(m) && m@ == "Schema created"@,
            Err(e) => r matches Err(UserError::InternalServerError(m)) && m == e,
        },
{
    match reply {
        Ok(_) => Ok(owned("Schema created")),
        Err(e) => Err(UserError::InternalServerError(e)),
    }
}

/// The outcome of updating a user's search key, from the creation of the new key (its id
/// and value, or the reason it failed).
pub fn api_key_update_result(created: core::result::Result<(i64, String), String>) -> (r: core::result::Result<String, UserError>)
    ensures
        match created {
            Ok(_) => r matches Ok(m) && m@ == "API key updated successfully"@,
            Err(e) => r matches Err(UserError::InternalServerError(m)) && m == e,
        },
{
    match created {
        Ok(_) => Ok(owned("API key updated successfully")),
        Err(e) => Err(UserError::InternalServerError(e)),
    }
}

} // verus!
