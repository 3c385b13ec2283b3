use ndex::models::integration::Platform;
use ndex::routes::index_flow::{IndexAction, IndexEvent, IndexFlow, IndexReply, IndexStage};
use ndex::routes::typesense::index::{export_file_path, import_file_path, import_outcome, import_url, single_import_reply};
use ndex::routes::typesense::schema_control::{
    api_key_url, collection_url, generate_document_schema, read_api_key_request, schema_creation_result,
    superseded_api_key,
};
use ndex::routes::typesense::Product;
use ndex::utilities::errors::UserError;

#[test]
fn document_schema_of_a_user() {
    let c = generate_document_schema(42);
    assert_eq!(c.name, "42");
    assert_eq!(c.num_documents, 0);
    assert_eq!(c.default_sorting_field, "created_time");
    let names: Vec<&str> = c.fields.iter().map(|f| f.name.as_str()).collect();
    assert_eq!(names, vec!["account_email", "title", "contents", "url", "platform", "type", "last_edited_time", "created_time"]);
    let facets: Vec<bool> = c.fields.iter().map(|f| f.facet).collect();
    assert_eq!(facets, vec![false, false, false, false, true, true, false, false]);
    assert_eq!(c.fields[6].type_field, "int64");
}

#[test]
fn typesense_addresses() {
    assert_eq!(collection_url(7), "http://localhost:8108/collections/7");
    assert_eq!(api_key_url(-1), "http://localhost:8108/keys/-1");
    assert_eq!(import_url("7"), "http://localhost:8108/collections/7/documents/import?action=create");
    let k = read_api_key_request(7);
    assert_eq!(k.collections, vec!["7".to_string()]);
    assert_eq!(k.actions, vec!["documents:search".to_string()]);
    assert_eq!(k.description, "Read only API key");
    assert_eq!(superseded_api_key(Some(Some(3))), Some(3));
    assert_eq!(superseded_api_key(Some(None)), None);
}

#[test]
fn import_reads_what_indexing_wrote() {
    for p in [Product::Notion, Product::GCalendar, Product::GMail] {
        assert_eq!(Some(import_file_path(p, "7").unwrap()), export_file_path(p, "7"));
    }
    assert_eq!(import_file_path(Product::GDrive, "7"), Err("Invalid platform".to_string()));
    assert_eq!(export_file_path(Product::GDrive, "7"), Some("google_calendar_events_7.jsonl".to_string()));
    assert_eq!(import_outcome(200), Ok("Success".to_string()));
    assert_eq!(import_outcome(400), Err("Error".to_string()));
    assert_eq!(single_import_reply(200), (200, "Success"));
    assert_eq!(single_import_reply(404), (500, "Error"));
    assert_eq!(schema_creation_result(Ok(())), Ok("Schema created".to_string()));
    assert_eq!(schema_creation_result(Err("x".to_string())), Err(UserError::InternalServerError("x".to_string())));
}

#[test]
fn index_flow_runs_to_completion() {
    let mut flow = IndexFlow::new(Product::GMail, Platform::Google, "me@x.org".to_string(), String::new(), "Wrong token");
    assert_eq!(
        flow.step(IndexEvent::TokenChecked(Some("7".to_string()))),
        IndexAction::FetchAccessToken { user_id: "7".to_string(), email: "me@x.org".to_string(), platform: Platform::Google }
    );
    assert_eq!(
        flow.step(IndexEvent::AccessToken(Ok("tok".to_string()))),
        IndexAction::RunIndex { access_token: "tok".to_string(), user_id: "7".to_string(), query: String::new() }
    );
    assert_eq!(
        flow.step(IndexEvent::Indexed(Ok("Indexed".to_string()))),
        IndexAction::Import { user_id: "7".to_string(), product: Product::GMail }
    );
    assert_eq!(flow.step(IndexEvent::Imported(Ok("Success".to_string()))), IndexAction::Reply(IndexReply::Complete));
    assert_eq!(flow.stage, IndexStage::Finished);
}

#[test]
fn index_flow_refuses_bad_sessions_and_reports_failures() {
    let mut flow = IndexFlow::new(Product::Notion, Platform::Notion, "me@x.org".to_string(), String::new(), "Invalid token");
    assert_eq!(
        flow.step(IndexEvent::TokenChecked(None)),
        IndexAction::Reply(IndexReply::Failed(UserError::Unauthorized("Invalid token".to_string())))
    );
    let mut flow = IndexFlow::new(Product::GDrive, Platform::Google, "me@x.org".to_string(), String::new(), "Wrong token");
    flow.step(IndexEvent::TokenChecked(Some("7".to_string())));
    flow.step(IndexEvent::AccessToken(Ok("tok".to_string())));
    flow.step(IndexEvent::Indexed(Ok("Indexed".to_string())));
    assert_eq!(
        flow.step(IndexEvent::Imported(Err("Invalid platform".to_string()))),
        IndexAction::Reply(IndexReply::Failed(UserError::InternalServerError("Invalid platform".to_string())))
    );
}
